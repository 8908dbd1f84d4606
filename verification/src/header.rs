use vstd::prelude::*;

verus! {

/// Metadata attached to every response: which cluster and member answered,
/// the store revision at the time of the response, and the raft term.
#[derive(Clone, Copy, Debug, PartialEq, Eq, Structural)]
pub struct ResponseHeader {
    pub cluster_id: u64,
    pub member_id: u64,
    pub revision: i64,
    pub raft_term: u64,
}

impl ResponseHeader {
    pub fn new(cluster_id: u64, member_id: u64, revision: i64, raft_term: u64) -> (r: Self)
        ensures
            r == (ResponseHeader { cluster_id, member_id, revision, raft_term }),
    {
        ResponseHeader { cluster_id, member_id, revision, raft_term }
    }

    /// The ID of the cluster which sent the response.
    pub fn cluster_id(&self) -> (r: u64)
        ensures
            r == self.cluster_id,
    {
        self.cluster_id
    }

    /// The ID of the member which sent the response.
    pub fn member_id(&self) -> (r: u64)
        ensures
            r == self.member_id,
    {
        self.member_id
    }

    /// The store revision when the response was produced.
    pub fn revision(&self) -> (r: i64)
        ensures
            r == self.revision,
    {
        self.revision
    }

    /// The raft term when the response was produced.
    pub fn raft_term(&self) -> (r: u64)
        ensures
            r == self.raft_term,
    {
        self.raft_term
    }
}

/// A key-value pair as stored: the key, its creation and last-modification
/// revisions, its version (number of writes since creation), its value,
/// and the lease bound to it.
#[derive(Clone, Debug)]
pub struct KeyValue {
    pub key: Vec<u8>,
    pub create_revision: i64,
    pub mod_revision: i64,
    pub version: i64,
    pub value: Vec<u8>,
    pub lease: i64,
}

impl KeyValue {
    pub fn new(
        key: Vec<u8>,
        create_revision: i64,
        mod_revision: i64,
        version: i64,
        value: Vec<u8>,
        lease: i64,
    ) -> (r: Self)
        ensures
            r.key@ == key@,
            r.create_revision == create_revision,
            r.mod_revision == mod_revision,
            r.version == version,
            r.value@ == value@,
            r.lease == lease,
    {
        KeyValue { key, create_revision, mod_revision, version, value, lease }
    }

    /// The key in bytes.
    pub fn key(&self) -> (r: &[u8])
        ensures
            r@ == self.key@,
    {
        self.key.as_slice()
    }

    /// The value held at the key, in bytes.
    pub fn value(&self) -> (r: &[u8])
        ensures
            r@ == self.value@,
    {
        self.value.as_slice()
    }

    /// The revision at which this key was created.
    pub fn create_revision(&self) -> (r: i64)
        ensures
            r == self.create_revision,
    {
        self.create_revision
    }

    /// The revision of the last write to this key.
    pub fn mod_revision(&self) -> (r: i64)
        ensures
            r == self.mod_revision,
    {
        self.mod_revision
    }

    /// The number of writes to this key since its creation.
    pub fn version(&self) -> (r: i64)
        ensures
            r == self.version,
    {
        self.version
    }

    /// The lease bound to this key, or zero for none.
    pub fn lease(&self) -> (r: i64)
        ensures
            r == self.lease,
    {
        self.lease
    }
}

} // verus!
