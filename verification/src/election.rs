//! Data types of the election protocol: the fencing token, the option
//! records for each operation, and the response types.

use vstd::prelude::*;

use crate::errors::Error;
use crate::header::KeyValue;
use crate::header::ResponseHeader;
use crate::model::LeaderKeyModel;

verus! {

/// The characters the given bytes decode to as UTF-8, or nothing when the
/// bytes are not valid UTF-8.  The decoding depends on the bytes alone.
pub uninterp spec fn utf8_chars(bytes: Seq<u8>) -> Option<Seq<char>>;

/// Relies on core::str::from_utf8: it checks the bytes and returns the
/// decoded string slice exactly when they are valid UTF-8; the outcome is
/// a function of the bytes alone, and the empty slice is valid.
#[verifier::external_body]
fn utf8_from(bytes: &[u8]) -> (r: Option<&str>)
    ensures
        r is Some <==> utf8_chars(bytes@) is Some,
        r matches Some(s) ==> utf8_chars(bytes@) == Some(s@),
        bytes@.len() == 0 ==> r is Some,
{
    core::str::from_utf8(bytes).ok()
}

/// The fencing token identifying one specific leadership holding.
///
/// It is valid — denotes live leadership — exactly as long as `key` still
/// exists in the store with creation revision `rev`.  Produced by a
/// successful campaign, consumed by proclaim and resign, never mutated
/// while held.
#[derive(Clone, Debug)]
pub struct LeaderKey {
    pub name: Vec<u8>,
    pub key: Vec<u8>,
    pub rev: i64,
    pub lease: i64,
}

impl View for LeaderKey {
    type V = LeaderKeyModel;

    open spec fn view(&self) -> LeaderKeyModel {
        LeaderKeyModel { name: self.name@, key: self.key@, rev: self.rev as int, lease: self.lease }
    }
}

impl LeaderKey {
    pub fn new(name: Vec<u8>, key: Vec<u8>, rev: i64, lease: i64) -> (r: Self)
        ensures
            r@ == (LeaderKeyModel { name: name@, key: key@, rev: rev as int, lease }),
    {
        LeaderKey { name, key, rev, lease }
    }

    /// The election identifier that corresponds to the leadership key.
    pub fn with_name(self, name: Vec<u8>) -> (r: Self)
        ensures
            r@ == (LeaderKeyModel { name: name@, ..self@ }),
    {
        LeaderKey { name, ..self }
    }

    /// The opaque ordered key representing the ownership of the election.
    pub fn with_key(self, key: Vec<u8>) -> (r: Self)
        ensures
            r@ == (LeaderKeyModel { key: key@, ..self@ }),
    {
        LeaderKey { key, ..self }
    }

    /// The creation revision of the key: the fencing value.
    pub fn with_rev(self, rev: i64) -> (r: Self)
        ensures
            r@ == (LeaderKeyModel { rev: rev as int, ..self@ }),
    {
        LeaderKey { rev, ..self }
    }

    /// The lease ID bound to the leadership key.
    pub fn with_lease(self, lease: i64) -> (r: Self)
        ensures
            r@ == (LeaderKeyModel { lease, ..self@ }),
    {
        LeaderKey { lease, ..self }
    }

    /// The election name, in bytes.
    pub fn name(&self) -> (r: &[u8])
        ensures
            r@ == self@.name,
    {
        self.name.as_slice()
    }

    /// The election name as a string, when it holds valid UTF-8.
    pub fn name_str(&self) -> (r: Result<&str, Error>)
        ensures
            r is Ok <==> utf8_chars(self@.name) is Some,
            r matches Ok(s) ==> utf8_chars(self@.name) == Some(s@),
            r matches Err(e) ==> e == Error::InvalidUtf8,
    {
        match utf8_from(self.name.as_slice()) {
            Some(s) => Ok(s),
            None => Err(Error::InvalidUtf8),
        }
    }

    /// The ownership key, in bytes.  If it is deleted, leadership is lost.
    pub fn key(&self) -> (r: &[u8])
        ensures
            r@ == self@.key,
    {
        self.key.as_slice()
    }

    /// The ownership key as a string, when it holds valid UTF-8.
    pub fn key_str(&self) -> (r: Result<&str, Error>)
        ensures
            r is Ok <==> utf8_chars(self@.key) is Some,
            r matches Ok(s) ==> utf8_chars(self@.key) == Some(s@),
            r matches Err(e) ==> e == Error::InvalidUtf8,
    {
        match utf8_from(self.key.as_slice()) {
            Some(s) => Ok(s),
            None => Err(Error::InvalidUtf8),
        }
    }

    /// The creation revision of the key: proves ownership while the key's
    /// creation revision still matches it.
    pub fn rev(&self) -> (r: i64)
        ensures
            r == self.rev,
    {
        self.rev
    }

    /// The lease ID of the election leader.
    pub fn lease(&self) -> (r: i64)
        ensures
            r == self.lease,
    {
        self.lease
    }

    /// An identical copy of this fencing token.
    pub fn duplicate(&self) -> (r: Self)
        ensures
            r@ == self@,
    {
        LeaderKey {
            name: crate::bytes::clone_bytes(&self.name),
            key: crate::bytes::clone_bytes(&self.key),
            rev: self.rev,
            lease: self.lease,
        }
    }
}

/// Options for the campaign operation.
#[derive(Clone, Debug)]
pub struct CampaignOptions {
    pub name: Vec<u8>,
    pub lease: i64,
    pub value: Vec<u8>,
}

impl CampaignOptions {
    pub fn new() -> (r: Self)
        ensures
            r.name@.len() == 0,
            r.lease == 0,
            r.value@.len() == 0,
    {
        CampaignOptions { name: Vec::new(), lease: 0, value: Vec::new() }
    }

    /// The election's identifier for the campaign.
    pub fn with_name(self, name: Vec<u8>) -> (r: Self)
        ensures
            r.name@ == name@,
            r.lease == self.lease,
            r.value@ == self.value@,
    {
        CampaignOptions { name, ..self }
    }

    /// The ID of the lease attached to leadership of the election.
    pub fn with_lease(self, lease: i64) -> (r: Self)
        ensures
            r.name@ == self.name@,
            r.lease == lease,
            r.value@ == self.value@,
    {
        CampaignOptions { lease, ..self }
    }

    /// The initial proclaimed value, set when the campaigner wins.
    pub fn with_value(self, value: Vec<u8>) -> (r: Self)
        ensures
            r.name@ == self.name@,
            r.lease == self.lease,
            r.value@ == value@,
    {
        CampaignOptions { value, ..self }
    }
}

/// Options for the proclaim operation.
#[derive(Clone, Debug)]
pub struct ProclaimOptions {
    pub leader: Option<LeaderKey>,
    pub value: Vec<u8>,
}

impl ProclaimOptions {
    pub fn new() -> (r: Self)
        ensures
            r.leader is None,
            r.value@.len() == 0,
    {
        ProclaimOptions { leader: None, value: Vec::new() }
    }

    /// The new value to announce.
    pub fn with_value(self, value: Vec<u8>) -> (r: Self)
        ensures
            r.leader == self.leader,
            r.value@ == value@,
    {
        ProclaimOptions { value, ..self }
    }

    /// The leadership hold on the election.
    pub fn with_leader(self, leader: LeaderKey) -> (r: Self)
        ensures
            r.leader matches Some(lk) && lk@ == leader@,
            r.value@ == self.value@,
    {
        ProclaimOptions { leader: Some(leader), ..self }
    }
}

/// Options for the leader (point-in-time read) operation.
#[derive(Clone, Debug)]
pub struct LeaderOptions {
    pub name: Vec<u8>,
}

impl LeaderOptions {
    pub fn new() -> (r: Self)
        ensures
            r.name@.len() == 0,
    {
        LeaderOptions { name: Vec::new() }
    }

    /// The election identifier to read leadership information for.
    pub fn with_name(self, name: Vec<u8>) -> (r: Self)
        ensures
            r.name@ == name@,
    {
        LeaderOptions { name }
    }
}

/// Options for the resign operation.
#[derive(Clone, Debug)]
pub struct ResignOptions {
    pub leader: Option<LeaderKey>,
}

impl ResignOptions {
    pub fn new() -> (r: Self)
        ensures
            r.leader is None,
    {
        ResignOptions { leader: None }
    }

    /// The leadership to relinquish by resignation.
    pub fn with_leader(self, leader: LeaderKey) -> (r: Self)
        ensures
            r.leader matches Some(lk) && lk@ == leader@,
    {
        ResignOptions { leader: Some(leader) }
    }
}

/// Response of a campaign once the candidacy has become leader.
#[derive(Clone, Debug)]
pub struct CampaignResponse {
    pub header: Option<ResponseHeader>,
    pub leader: Option<LeaderKey>,
}

impl CampaignResponse {
    pub fn new(header: Option<ResponseHeader>, leader: Option<LeaderKey>) -> (r: Self)
        ensures
            r.header == header,
            r.leader == leader,
    {
        CampaignResponse { header, leader }
    }

    /// Get the response header.
    pub fn header(&self) -> (r: Option<&ResponseHeader>)
        ensures
            r matches Some(h) ==> (self.header matches Some(h2) && h == h2),
            r is None <==> self.header is None,
    {
        self.header.as_ref()
    }

    /// Takes the header out of the response, leaving nothing in its place.
    pub fn take_header(&mut self) -> (r: Option<ResponseHeader>)
        ensures
            r == old(self).header,
            final(self).header is None,
            final(self).leader == old(self).leader,
    {
        self.header.take()
    }

    /// The resources used for holding leadership of the election.
    pub fn leader(&self) -> (r: Option<&LeaderKey>)
        ensures
            r matches Some(lk) ==> (self.leader matches Some(lk2) && lk == lk2),
            r is None <==> self.leader is None,
    {
        self.leader.as_ref()
    }

    /// Takes the leader out of the response, leaving nothing in its place.
    pub fn take_leader(&mut self) -> (r: Option<LeaderKey>)
        ensures
            r == old(self).leader,
            final(self).leader is None,
            final(self).header == old(self).header,
    {
        self.leader.take()
    }
}

/// Response of a proclaim operation.
#[derive(Clone, Debug)]
pub struct ProclaimResponse {
    pub header: Option<ResponseHeader>,
}

impl ProclaimResponse {
    pub fn new(header: Option<ResponseHeader>) -> (r: Self)
        ensures
            r.header == header,
    {
        ProclaimResponse { header }
    }

    /// Get the response header.
    pub fn header(&self) -> (r: Option<&ResponseHeader>)
        ensures
            r matches Some(h) ==> (self.header matches Some(h2) && h == h2),
            r is None <==> self.header is None,
    {
        self.header.as_ref()
    }

    /// Takes the header out of the response, leaving nothing in its place.
    pub fn take_header(&mut self) -> (r: Option<ResponseHeader>)
        ensures
            r == old(self).header,
            final(self).header is None,
    {
        self.header.take()
    }
}

/// Response of a leader read: the key-value pair of the current leader.
#[derive(Clone, Debug)]
pub struct LeaderResponse {
    pub header: Option<ResponseHeader>,
    pub kv: Option<KeyValue>,
}

impl LeaderResponse {
    pub fn new(header: Option<ResponseHeader>, kv: Option<KeyValue>) -> (r: Self)
        ensures
            r.header == header,
            r.kv == kv,
    {
        LeaderResponse { header, kv }
    }

    /// Get the response header.
    pub fn header(&self) -> (r: Option<&ResponseHeader>)
        ensures
            r matches Some(h) ==> (self.header matches Some(h2) && h == h2),
            r is None <==> self.header is None,
    {
        self.header.as_ref()
    }

    /// Takes the header out of the response, leaving nothing in its place.
    pub fn take_header(&mut self) -> (r: Option<ResponseHeader>)
        ensures
            r == old(self).header,
            final(self).header is None,
            final(self).kv == old(self).kv,
    {
        self.header.take()
    }

    /// The key-value pair representing the latest leader update.
    pub fn kv(&self) -> (r: Option<&KeyValue>)
        ensures
            r matches Some(kv) ==> (self.kv matches Some(kv2) && kv == kv2),
            r is None <==> self.kv is None,
    {
        self.kv.as_ref()
    }

    /// Takes the key-value pair out of the response, leaving nothing in
    /// its place.
    pub fn take_kv(&mut self) -> (r: Option<KeyValue>)
        ensures
            r == old(self).kv,
            final(self).kv is None,
            final(self).header == old(self).header,
    {
        self.kv.take()
    }
}

/// Response of a resign operation.
#[derive(Clone, Debug)]
pub struct ResignResponse {
    pub header: Option<ResponseHeader>,
}

impl ResignResponse {
    pub fn new(header: Option<ResponseHeader>) -> (r: Self)
        ensures
            r.header == header,
    {
        ResignResponse { header }
    }

    /// Get the response header.
    pub fn header(&self) -> (r: Option<&ResponseHeader>)
        ensures
            r matches Some(h) ==> (self.header matches Some(h2) && h == h2),
            r is None <==> self.header is None,
    {
        self.header.as_ref()
    }

    /// Takes the header out of the response, leaving nothing in its place.
    pub fn take_header(&mut self) -> (r: Option<ResponseHeader>)
        ensures
            r == old(self).header,
            final(self).header is None,
    {
        self.header.take()
    }
}

} // verus!
