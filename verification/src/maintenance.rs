//! Data types of the cluster-maintenance operations.
//!
//! Maintenance calls (alarm, status, defragment, hash checks, snapshot
//! transfer) are pass-through administrative operations with no
//! coordination logic: a request record goes out, a typed response comes
//! back.  Only those plain records live here; the transport that carries
//! them is an external collaborator.

use vstd::prelude::*;

use crate::header::ResponseHeader;

verus! {

/// What an alarm request does: read alarms, raise one, or clear one.
#[derive(Clone, Copy, Debug, PartialEq, Eq, Structural)]
pub enum AlarmAction {
    Get,
    Activate,
    Deactivate,
}

/// The kind of alarm raised on a member.
#[derive(Clone, Copy, Debug, PartialEq, Eq, Structural)]
pub enum AlarmType {
    /// No alarm: the default, and the filter that matches every alarm.
    NoAlarm,
    /// The member is out of storage space.
    Nospace,
    /// The member's data is corrupted.
    Corrupt,
}

/// Options for the alarm operation.
#[derive(Clone, Copy, Debug, PartialEq, Eq, Structural)]
pub struct AlarmOptions {
    pub action: AlarmAction,
    pub member_id: u64,
    pub alarm: AlarmType,
}

impl AlarmOptions {
    /// Reads all alarms of all members by default.
    pub fn new() -> (r: Self)
        ensures
            r == (AlarmOptions { action: AlarmAction::Get, member_id: 0, alarm: AlarmType::NoAlarm }),
    {
        AlarmOptions { action: AlarmAction::Get, member_id: 0, alarm: AlarmType::NoAlarm }
    }

    /// Sets the alarm action and the alarm type.
    pub fn with_action_and_type(self, alarm_action: AlarmAction, alarm_type: AlarmType) -> (r:
        Self)
        ensures
            r == (AlarmOptions { action: alarm_action, alarm: alarm_type, ..self }),
    {
        AlarmOptions { action: alarm_action, alarm: alarm_type, ..self }
    }

    /// Targets the alarm operation at one member.
    pub fn with_member(&mut self, member: u64)
        ensures
            *final(self) == (AlarmOptions { member_id: member, ..*old(self) }),
    {
        self.member_id = member;
    }
}

/// One raised alarm: the member it concerns and its kind.
#[derive(Clone, Copy, Debug, PartialEq, Eq, Structural)]
pub struct AlarmMember {
    /// The ID of the member associated with the raised alarm.
    pub member_id: u64,
    /// The type of alarm which has been raised.
    pub alarm: AlarmType,
}

impl AlarmMember {
    pub fn new(member_id: u64, alarm: AlarmType) -> (r: Self)
        ensures
            r == (AlarmMember { member_id, alarm }),
    {
        AlarmMember { member_id, alarm }
    }
}

/// Response of an alarm operation.
#[derive(Clone, Debug)]
pub struct AlarmResponse {
    pub header: Option<ResponseHeader>,
    pub alarms: Vec<AlarmMember>,
}

impl AlarmResponse {
    pub fn new(header: Option<ResponseHeader>, alarms: Vec<AlarmMember>) -> (r: Self)
        ensures
            r.header == header,
            r.alarms@ == alarms@,
    {
        AlarmResponse { header, alarms }
    }

    /// Get the response header.
    pub fn header(&self) -> (r: Option<&ResponseHeader>)
        ensures
            r matches Some(h) ==> (self.header matches Some(h2) && h == h2),
            r is None <==> self.header is None,
    {
        self.header.as_ref()
    }

    /// Takes the header out of the response, leaving nothing in its place.
    pub fn take_header(&mut self) -> (r: Option<ResponseHeader>)
        ensures
            r == old(self).header,
            final(self).header is None,
            final(self).alarms@ == old(self).alarms@,
    {
        self.header.take()
    }

    /// The alarms of the cluster members.
    pub fn alarms(&self) -> (r: &[AlarmMember])
        ensures
            r@ == self.alarms@,
    {
        self.alarms.as_slice()
    }
}

/// Options for the status operation.
#[derive(Clone, Copy, Debug, PartialEq, Eq, Structural)]
pub struct StatusOptions {}

impl StatusOptions {
    pub fn new() -> (r: Self)
        ensures
            r == (StatusOptions {  }),
    {
        StatusOptions {  }
    }
}

/// Options for the defragment operation.
#[derive(Clone, Copy, Debug, PartialEq, Eq, Structural)]
pub struct DefragmentOptions {}

impl DefragmentOptions {
    pub fn new() -> (r: Self)
        ensures
            r == (DefragmentOptions {  }),
    {
        DefragmentOptions {  }
    }
}

/// Options for the hash operation.
#[derive(Clone, Copy, Debug, PartialEq, Eq, Structural)]
pub struct HashOptions {}

impl HashOptions {
    pub fn new() -> (r: Self)
        ensures
            r == (HashOptions {  }),
    {
        HashOptions {  }
    }
}

/// Options for the hash-kv operation: the revision up to which keys are
/// hashed.
#[derive(Clone, Copy, Debug, PartialEq, Eq, Structural)]
pub struct HashKvOptions {
    pub revision: i64,
}

impl HashKvOptions {
    pub fn new(revision: i64) -> (r: Self)
        ensures
            r == (HashKvOptions { revision }),
    {
        HashKvOptions { revision }
    }
}

/// Options for the snapshot operation.
#[derive(Clone, Copy, Debug, PartialEq, Eq, Structural)]
pub struct SnapshotOptions {}

impl SnapshotOptions {
    pub fn new() -> (r: Self)
        ensures
            r == (SnapshotOptions {  }),
    {
        SnapshotOptions {  }
    }
}

/// Response of a status operation.
#[derive(Clone, Debug)]
pub struct StatusResponse {
    pub header: Option<ResponseHeader>,
    pub version: String,
    pub db_size: i64,
    pub leader: u64,
    pub raft_index: u64,
    pub raft_term: u64,
    pub raft_applied_index: u64,
    pub errors: Vec<String>,
    pub db_size_in_use: i64,
    pub is_learner: bool,
}

impl StatusResponse {
    pub fn new(
        header: Option<ResponseHeader>,
        version: String,
        db_size: i64,
        leader: u64,
        raft_index: u64,
        raft_term: u64,
        raft_applied_index: u64,
        errors: Vec<String>,
        db_size_in_use: i64,
        is_learner: bool,
    ) -> (r: Self)
        ensures
            r.header == header,
            r.version@ == version@,
            r.db_size == db_size,
            r.leader == leader,
            r.raft_index == raft_index,
            r.raft_term == raft_term,
            r.raft_applied_index == raft_applied_index,
            r.errors@ == errors@,
            r.db_size_in_use == db_size_in_use,
            r.is_learner == is_learner,
    {
        StatusResponse {
            header,
            version,
            db_size,
            leader,
            raft_index,
            raft_term,
            raft_applied_index,
            errors,
            db_size_in_use,
            is_learner,
        }
    }

    /// Get the response header.
    pub fn header(&self) -> (r: Option<&ResponseHeader>)
        ensures
            r matches Some(h) ==> (self.header matches Some(h2) && h == h2),
            r is None <==> self.header is None,
    {
        self.header.as_ref()
    }

    /// Takes the header out of the response, leaving nothing in its place.
    pub fn take_header(&mut self) -> (r: Option<ResponseHeader>)
        ensures
            r == old(self).header,
            final(self).header is None,
    {
        self.header.take()
    }

    /// The version of the responding member.
    pub fn version(&self) -> (r: &str)
        ensures
            r@ == self.version@,
    {
        self.version.as_str()
    }

    /// The size of the member's backend database, in bytes.
    pub fn db_size(&self) -> (r: i64)
        ensures
            r == self.db_size,
    {
        self.db_size
    }

    /// The member ID the cluster currently takes for its leader.
    pub fn leader(&self) -> (r: u64)
        ensures
            r == self.leader,
    {
        self.leader
    }

    /// The raft index of the cluster.
    pub fn raft_index(&self) -> (r: u64)
        ensures
            r == self.raft_index,
    {
        self.raft_index
    }

    /// The raft term of the cluster.
    pub fn raft_term(&self) -> (r: u64)
        ensures
            r == self.raft_term,
    {
        self.raft_term
    }

    /// The raft index the responding member has applied.
    pub fn raft_applied_index(&self) -> (r: u64)
        ensures
            r == self.raft_applied_index,
    {
        self.raft_applied_index
    }

    /// The errors reported by cluster members.
    pub fn errors(&self) -> (r: &[String])
        ensures
            r@ == self.errors@,
    {
        self.errors.as_slice()
    }

    /// The portion of the backend database actually in use, in bytes.
    pub fn raft_used_db_size(&self) -> (r: i64)
        ensures
            r == self.db_size_in_use,
    {
        self.db_size_in_use
    }

    /// Whether the responding member is a raft learner.
    pub fn is_learner(&self) -> (r: bool)
        ensures
            r == self.is_learner,
    {
        self.is_learner
    }
}

/// Response of a defragment operation.
#[derive(Clone, Debug)]
pub struct DefragmentResponse {
    pub header: Option<ResponseHeader>,
}

impl DefragmentResponse {
    pub fn new(header: Option<ResponseHeader>) -> (r: Self)
        ensures
            r.header == header,
    {
        DefragmentResponse { header }
    }

    /// Get the response header.
    pub fn header(&self) -> (r: Option<&ResponseHeader>)
        ensures
            r matches Some(h) ==> (self.header matches Some(h2) && h == h2),
            r is None <==> self.header is None,
    {
        self.header.as_ref()
    }

    /// Takes the header out of the response, leaving nothing in its place.
    pub fn take_header(&mut self) -> (r: Option<ResponseHeader>)
        ensures
            r == old(self).header,
            final(self).header is None,
    {
        self.header.take()
    }
}

/// Response of a hash operation.
#[derive(Clone, Debug)]
pub struct HashResponse {
    pub header: Option<ResponseHeader>,
    pub hash: u32,
}

impl HashResponse {
    pub fn new(header: Option<ResponseHeader>, hash: u32) -> (r: Self)
        ensures
            r.header == header,
            r.hash == hash,
    {
        HashResponse { header, hash }
    }

    /// Get the response header.
    pub fn header(&self) -> (r: Option<&ResponseHeader>)
        ensures
            r matches Some(h) ==> (self.header matches Some(h2) && h == h2),
            r is None <==> self.header is None,
    {
        self.header.as_ref()
    }

    /// Takes the header out of the response, leaving nothing in its place.
    pub fn take_header(&mut self) -> (r: Option<ResponseHeader>)
        ensures
            r == old(self).header,
            final(self).header is None,
            final(self).hash == old(self).hash,
    {
        self.header.take()
    }

    /// The hash of the responding member's whole backend key space.
    pub fn hash(&self) -> (r: u32)
        ensures
            r == self.hash,
    {
        self.hash
    }
}

/// Response of a hash-kv operation.
#[derive(Clone, Debug)]
pub struct HashKvResponse {
    pub header: Option<ResponseHeader>,
    pub hash: u32,
    pub compact_revision: i64,
}

impl HashKvResponse {
    pub fn new(header: Option<ResponseHeader>, hash: u32, compact_revision: i64) -> (r: Self)
        ensures
            r.header == header,
            r.hash == hash,
            r.compact_revision == compact_revision,
    {
        HashKvResponse { header, hash, compact_revision }
    }

    /// Get the response header.
    pub fn header(&self) -> (r: Option<&ResponseHeader>)
        ensures
            r matches Some(h) ==> (self.header matches Some(h2) && h == h2),
            r is None <==> self.header is None,
    {
        self.header.as_ref()
    }

    /// Takes the header out of the response, leaving nothing in its place.
    pub fn take_header(&mut self) -> (r: Option<ResponseHeader>)
        ensures
            r == old(self).header,
            final(self).header is None,
            final(self).hash == old(self).hash,
            final(self).compact_revision == old(self).compact_revision,
    {
        self.header.take()
    }

    /// The hash of the member's keys up to the requested revision.
    pub fn hash(&self) -> (r: u32)
        ensures
            r == self.hash,
    {
        self.hash
    }

    /// The compacted revision of the key-value store when hashing began.
    pub fn compact_version(&self) -> (r: i64)
        ensures
            r == self.compact_revision,
    {
        self.compact_revision
    }
}

/// Response of a snapshot operation: one chunk of the snapshot stream.
#[derive(Clone, Debug)]
pub struct SnapshotResponse {
    pub header: Option<ResponseHeader>,
    pub remaining_bytes: u64,
    pub blob: Vec<u8>,
}

impl SnapshotResponse {
    pub fn new(header: Option<ResponseHeader>, remaining_bytes: u64, blob: Vec<u8>) -> (r: Self)
        ensures
            r.header == header,
            r.remaining_bytes == remaining_bytes,
            r.blob@ == blob@,
    {
        SnapshotResponse { header, remaining_bytes, blob }
    }

    /// Get the response header.
    pub fn header(&self) -> (r: Option<&ResponseHeader>)
        ensures
            r matches Some(h) ==> (self.header matches Some(h2) && h == h2),
            r is None <==> self.header is None,
    {
        self.header.as_ref()
    }

    /// Takes the header out of the response, leaving nothing in its place.
    pub fn take_header(&mut self) -> (r: Option<ResponseHeader>)
        ensures
            r == old(self).header,
            final(self).header is None,
            final(self).remaining_bytes == old(self).remaining_bytes,
            final(self).blob@ == old(self).blob@,
    {
        self.header.take()
    }

    /// The number of bytes remaining after this chunk.
    pub fn remaining_bytes(&self) -> (r: u64)
        ensures
            r == self.remaining_bytes,
    {
        self.remaining_bytes
    }

    /// The next chunk of the snapshot stream.
    pub fn blob(&self) -> (r: &[u8])
        ensures
            r@ == self.blob@,
    {
        self.blob.as_slice()
    }
}

} // verus!
