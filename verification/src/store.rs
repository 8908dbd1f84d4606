//! The election protocol against the revision-versioned, lease-bound
//! ordered key-value store.
//!
//! [`ElectionStore`] is an executable model of the store collaborator:
//! ordered-key writes conditioned on a lease, fenced compare-and-swap
//! updates and deletes, smallest-key reads, and lease expiry.  Every
//! operation is pinned to the corresponding transition function of
//! [`crate::model`], which is what the laws in [`crate::laws`] and the
//! session state machine in [`crate::session`] are proved against.

use vstd::prelude::*;

use crate::bytes::bytes_eq;
use crate::bytes::clone_bytes;
use crate::election::LeaderKey;
use crate::election::LeaderResponse;
use crate::election::ProclaimResponse;
use crate::election::ResignResponse;
use crate::errors::Error;
use crate::header::KeyValue;
use crate::header::ResponseHeader;
use crate::laws::lemma_at_most_one_leader;
use crate::model::campaign_model;
use crate::model::candidate_key;
use crate::model::fences;
use crate::model::grant_model;
use crate::model::has_key;
use crate::model::has_leader;
use crate::model::holds_leadership;
use crate::model::is_candidate;
use crate::model::is_leader_at;
use crate::model::key_idx;
use crate::model::leader_idx;
use crate::model::leads;
use crate::model::lease_byte;
use crate::model::lease_bytes;
use crate::model::lemma_candidate_key_injective;
use crate::model::lemma_fence_unique;
use crate::model::lemma_key_unique;
use crate::model::lemma_push_candidate_wf;
use crate::model::lemma_revoke_wf;
use crate::model::lemma_update_value_wf;
use crate::model::proclaim_model;
use crate::model::resign_model;
use crate::model::revoke_model;
use crate::model::without_id;
use crate::model::without_lease;
use crate::model::EntryModel;
use crate::model::LeaderKeyModel;
use crate::model::StoreModel;

verus! {

/// One live candidacy key held in the store.
#[derive(Debug)]
pub struct StoreEntry {
    pub key: Vec<u8>,
    pub name: Vec<u8>,
    pub lease: i64,
    pub value: Vec<u8>,
    pub create_rev: i64,
    pub mod_rev: i64,
    pub version: i64,
}

impl View for StoreEntry {
    type V = EntryModel;

    open spec fn view(&self) -> EntryModel {
        EntryModel {
            key: self.key@,
            name: self.name@,
            lease: self.lease,
            value: self.value@,
            create_rev: self.create_rev as int,
            mod_rev: self.mod_rev as int,
            version: self.version as int,
        }
    }
}

/// The model sequence of a sequence of stored entries.
pub open spec fn entries_model(entries: Seq<StoreEntry>) -> Seq<EntryModel> {
    entries.map_values(|e: StoreEntry| e@)
}

/// The store the election protocol runs against: live candidacy keys,
/// the store-wide revision counter, and the live leases.
#[derive(Debug)]
pub struct ElectionStore {
    pub entries: Vec<StoreEntry>,
    pub revision: i64,
    pub leases: Vec<i64>,
}

impl View for ElectionStore {
    type V = StoreModel;

    open spec fn view(&self) -> StoreModel {
        StoreModel {
            entries: entries_model(self.entries@),
            revision: self.revision as int,
            leases: self.leases@,
        }
    }
}

/// Copies a stored entry.
fn clone_entry(e: &StoreEntry) -> (r: StoreEntry)
    ensures
        r@ == e@,
{
    StoreEntry {
        key: clone_bytes(&e.key),
        name: clone_bytes(&e.name),
        lease: e.lease,
        value: clone_bytes(&e.value),
        create_rev: e.create_rev,
        mod_rev: e.mod_rev,
        version: e.version,
    }
}

/// The ordered key a candidacy with `lease` writes under `name`: the
/// name, a separator byte, and the eight big-endian lease bytes.
pub fn make_candidate_key(name: &Vec<u8>, lease: i64) -> (r: Vec<u8>)
    ensures
        r@ == candidate_key(name@, lease),
{
    let mut k: Vec<u8> = Vec::new();
    k.extend_from_slice(name.as_slice());
    k.push(47u8);
    proof {
        assert(k@ =~= name@.push(47u8));
    }
    let u: u64 = lease as u64;
    let mut j: usize = 0;
    while j < 8
        invariant
            j <= 8,
            u == lease as u64,
            k@ == name@.push(47u8) + lease_bytes(lease).subrange(0, j as int),
        decreases 8 - j,
    {
        let shift: u64 = 56 - 8 * (j as u64);
        let b: u8 = ((u >> shift) & 0xff) as u8;
        proof {
            assert(b == lease_byte(lease, j as int));
            assert(lease_bytes(lease)[j as int] == lease_byte(lease, j as int));
        }
        k.push(b);
        proof {
            assert(k@ =~= name@.push(47u8) + lease_bytes(lease).subrange(0, j + 1));
        }
        j = j + 1;
    }
    proof {
        assert(lease_bytes(lease).subrange(0, 8) =~= lease_bytes(lease));
        assert(k@ =~= candidate_key(name@, lease));
    }
    k
}

impl ElectionStore {
    /// An empty store: no candidacies, no live leases, revision zero.
    pub fn new() -> (s: Self)
        ensures
            s@ == (StoreModel {
                entries: Seq::<EntryModel>::empty(),
                revision: 0,
                leases: Seq::<i64>::empty(),
            }),
            s@.wf(),
    {
        let s = ElectionStore { entries: Vec::new(), revision: 0, leases: Vec::new() };
        proof {
            assert(entries_model(s.entries@) =~= Seq::<EntryModel>::empty());
            assert(s@ =~= (StoreModel {
                entries: Seq::<EntryModel>::empty(),
                revision: 0,
                leases: Seq::<i64>::empty(),
            }));
        }
        s
    }

    /// The current store revision.
    pub fn revision(&self) -> (r: i64)
        ensures
            r == self.revision,
    {
        self.revision
    }

    /// Whether `lease` is live.
    pub fn lease_live(&self, lease: i64) -> (r: bool)
        ensures
            r == self@.leases.contains(lease),
    {
        let mut i: usize = 0;
        while i < self.leases.len()
            invariant
                i <= self.leases.len(),
                forall|j: int| 0 <= j < i ==> self@.leases[j] != lease,
            decreases self.leases@.len() - i,
        {
            if self.leases[i] == lease {
                proof {
                    assert(self@.leases[i as int] == lease);
                }
                return true;
            }
            i = i + 1;
        }
        proof {
            if self@.leases.contains(lease) {
                let w = choose|j: int| 0 <= j < self@.leases.len() && self@.leases[j] == lease;
                assert(false);
            }
        }
        false
    }

    /// Makes `lease` live.  Nothing in the key space changes.
    pub fn grant_lease(&mut self, lease: i64)
        ensures
            final(self)@ == grant_model(old(self)@, lease),
            old(self)@.wf() ==> final(self)@.wf(),
    {
        self.leases.push(lease);
        proof {
            assert(self@ =~= grant_model(old(self)@, lease));
        }
    }

    /// Lease expiry or revocation: removes every candidacy key bound to
    /// `lease` in one mutation and withdraws the lease.  This is how
    /// leadership held by a dead process is eventually released.
    pub fn revoke_lease(&mut self, lease: i64)
        requires
            old(self)@.wf(),
            old(self)@.revision < i64::MAX,
        ensures
            final(self)@ == revoke_model(old(self)@, lease),
            final(self)@.wf(),
    {
        let ghost m0 = old(self)@.entries;
        let mut kept: Vec<StoreEntry> = Vec::new();
        let mut i: usize = 0;
        while i < self.entries.len()
            invariant
                *self == *old(self),
                i <= self.entries.len(),
                entries_model(kept@) == without_lease(m0.subrange(0, i as int), lease),
                m0 == entries_model(self.entries@),
            decreases self.entries@.len() - i,
        {
            proof {
                assert(m0.subrange(0, i + 1).drop_last() =~= m0.subrange(0, i as int));
                assert(m0.subrange(0, i + 1).last() == m0[i as int]);
                assert(m0[i as int] == self.entries@[i as int]@);
            }
            if self.entries[i].lease != lease {
                kept.push(clone_entry(&self.entries[i]));
                proof {
                    assert(entries_model(kept@) =~= without_lease(
                        m0.subrange(0, i as int),
                        lease,
                    ).push(m0[i as int]));
                }
            }
            i = i + 1;
        }
        proof {
            assert(m0.subrange(0, m0.len() as int) =~= m0);
        }
        let ghost l0 = old(self)@.leases;
        let mut kept_l: Vec<i64> = Vec::new();
        let mut p: usize = 0;
        while p < self.leases.len()
            invariant
                *self == *old(self),
                p <= self.leases.len(),
                kept_l@ == without_id(l0.subrange(0, p as int), lease),
                l0 == self.leases@,
            decreases self.leases@.len() - p,
        {
            proof {
                assert(l0.subrange(0, p + 1).drop_last() =~= l0.subrange(0, p as int));
                assert(l0.subrange(0, p + 1).last() == l0[p as int]);
            }
            if self.leases[p] != lease {
                kept_l.push(self.leases[p]);
                proof {
                    assert(kept_l@ =~= without_id(l0.subrange(0, p as int), lease).push(
                        l0[p as int],
                    ));
                }
            }
            p = p + 1;
        }
        proof {
            assert(l0.subrange(0, l0.len() as int) =~= l0);
        }
        self.entries = kept;
        self.leases = kept_l;
        self.revision = self.revision + 1;
        proof {
            assert(self@ =~= revoke_model(old(self)@, lease));
            lemma_revoke_wf(old(self)@, lease);
        }
    }

    /// Finds the entry holding exactly this key.
    fn key_scan(&self, key: &Vec<u8>) -> (r: Option<usize>)
        ensures
            match r {
                Some(i) => i < self.entries@.len() && self@.entries[i as int].key == key@,
                None => !has_key(self@, key@),
            },
    {
        let mut i: usize = 0;
        while i < self.entries.len()
            invariant
                i <= self.entries.len(),
                forall|j: int| 0 <= j < i ==> self@.entries[j].key != key@,
            decreases self.entries@.len() - i,
        {
            if bytes_eq(&self.entries[i].key, key) {
                proof {
                    assert(self@.entries[i as int].key == key@);
                }
                return Some(i);
            }
            proof {
                assert(self@.entries[i as int].key == self.entries@[i as int]@.key);
            }
            i = i + 1;
        }
        proof {
            if has_key(self@, key@) {
                let w = choose|j: int|
                    0 <= j < self@.entries.len() && (#[trigger] self@.entries[j]).key == key@;
                assert(false);
            }
        }
        None
    }

    /// Finds the entry that proves the fencing token: same key, same
    /// creation revision.
    fn fence_scan(&self, leader: &LeaderKey) -> (r: Option<usize>)
        ensures
            match r {
                Some(i) => i < self.entries@.len() && fences(self@, i as int, leader@),
                None => !holds_leadership(self@, leader@),
            },
    {
        let mut i: usize = 0;
        while i < self.entries.len()
            invariant
                i <= self.entries.len(),
                forall|j: int| 0 <= j < i ==> !fences(self@, j, leader@),
            decreases self.entries@.len() - i,
        {
            if self.entries[i].create_rev == leader.rev && bytes_eq(&self.entries[i].key, &leader.key) {
                proof {
                    assert(fences(self@, i as int, leader@));
                }
                return Some(i);
            }
            proof {
                assert(!fences(self@, i as int, leader@));
            }
            i = i + 1;
        }
        proof {
            if holds_leadership(self@, leader@) {
                let w = choose|j: int| fences(self@, j, leader@);
                assert(false);
            }
        }
        None
    }

    /// Finds the current leader of `name`: the live candidacy with the
    /// smallest creation revision, if any candidacy is live at all.
    fn leader_scan(&self, name: &Vec<u8>) -> (r: Option<usize>)
        ensures
            match r {
                Some(i) => i < self.entries@.len() && is_leader_at(self@, i as int, name@),
                None => {
                    &&& !has_leader(self@, name@)
                    &&& forall|j: int| !is_candidate(self@, j, name@)
                },
            },
    {
        let mut best: Option<usize> = None;
        let mut i: usize = 0;
        while i < self.entries.len()
            invariant
                i <= self.entries.len(),
                match best {
                    Some(b) => {
                        &&& b < i
                        &&& is_candidate(self@, b as int, name@)
                        &&& forall|j: int|
                            0 <= j < i && #[trigger] is_candidate(self@, j, name@)
                                ==> self@.entries[b as int].create_rev
                                <= self@.entries[j].create_rev
                    },
                    None => forall|j: int| 0 <= j < i ==> !is_candidate(self@, j, name@),
                },
            decreases self.entries@.len() - i,
        {
            if bytes_eq(&self.entries[i].name, name) {
                proof {
                    assert(is_candidate(self@, i as int, name@));
                }
                match best {
                    None => {
                        best = Some(i);
                    },
                    Some(b) => {
                        if self.entries[i].create_rev < self.entries[b].create_rev {
                            best = Some(i);
                        }
                    },
                }
            } else {
                proof {
                    assert(!is_candidate(self@, i as int, name@));
                }
            }
            i = i + 1;
        }
        match best {
            Some(b) => {
                proof {
                    assert(is_leader_at(self@, b as int, name@));
                }
                Some(b)
            },
            None => {
                proof {
                    assert forall|j: int| !is_candidate(self@, j, name@) by {
                        if is_candidate(self@, j, name@) {
                            assert(0 <= j < self@.entries.len());
                        }
                    }
                    if has_leader(self@, name@) {
                        let w = choose|j: int| is_leader_at(self@, j, name@);
                        assert(is_candidate(self@, w, name@));
                        assert(false);
                    }
                }
                None
            },
        }
    }

    /// Registers a candidacy: writes the candidate's uniquely ordered key
    /// under `name`, bound to `lease` and carrying `value`, and returns
    /// the fencing token for it.  The candidacy leads the election only
    /// once its key is the smallest: see
    /// [`crate::session::ElectionSession::campaign_poll`].
    ///
    /// Fails with `InvalidArgument` on an empty election name and with
    /// `LeaseNotFound` when the lease is not live; succeeds otherwise.
    pub fn create_candidate(&mut self, name: &Vec<u8>, value: &Vec<u8>, lease: i64) -> (r: Result<
        LeaderKey,
        Error,
    >)
        requires
            old(self)@.wf(),
            old(self)@.revision < i64::MAX,
        ensures
            final(self)@ == campaign_model(old(self)@, name@, value@, lease).0,
            final(self)@.wf(),
            match r {
                Ok(lk) => campaign_model(old(self)@, name@, value@, lease).1 == Ok::<
                    LeaderKeyModel,
                    Error,
                >(lk@),
                Err(e) => campaign_model(old(self)@, name@, value@, lease).1 == Err::<
                    LeaderKeyModel,
                    Error,
                >(e),
            },
    {
        if name.len() == 0 {
            return Err(Error::InvalidArgument);
        }
        if !self.lease_live(lease) {
            return Err(Error::LeaseNotFound);
        }
        let key = make_candidate_key(name, lease);
        let rev = self.revision + 1;
        match self.key_scan(&key) {
            Some(i) => {
                proof {
                    assert(has_key(self@, key@));
                    let ki = key_idx(self@, key@);
                    assert(0 <= ki < self@.entries.len() && self@.entries[ki].key == key@);
                    lemma_key_unique(self@, ki, i as int);
                    assert(self@.entries[i as int].wf_in(self@.revision));
                    lemma_candidate_key_injective(
                        self@.entries[i as int].name,
                        self@.entries[i as int].lease,
                        name@,
                        lease,
                    );
                    lemma_update_value_wf(self@, i as int, value@);
                }
                let ce = self.entries[i].create_rev;
                let ver = self.entries[i].version;
                let ne = StoreEntry {
                    key: clone_bytes(&key),
                    name: clone_bytes(name),
                    lease,
                    value: clone_bytes(value),
                    create_rev: ce,
                    mod_rev: rev,
                    version: ver + 1,
                };
                self.entries[i] = ne;
                self.revision = rev;
                proof {
                    let m = campaign_model(old(self)@, name@, value@, lease).0;
                    assert(self@.entries =~= m.entries);
                    assert(self@ =~= m);
                }
                Ok(LeaderKey::new(clone_bytes(name), key, ce, lease))
            },
            None => {
                proof {
                    lemma_push_candidate_wf(self@, name@, value@, lease);
                }
                let ne = StoreEntry {
                    key: clone_bytes(&key),
                    name: clone_bytes(name),
                    lease,
                    value: clone_bytes(value),
                    create_rev: rev,
                    mod_rev: rev,
                    version: 1,
                };
                self.entries.push(ne);
                self.revision = rev;
                proof {
                    let m = campaign_model(old(self)@, name@, value@, lease).0;
                    assert(self@.entries =~= m.entries);
                    assert(self@ =~= m);
                }
                Ok(LeaderKey::new(clone_bytes(name), key, rev, lease))
            },
        }
    }

    /// Whether the token still denotes live leadership resources: its key
    /// exists with the recorded creation revision.
    pub fn holds(&self, leader: &LeaderKey) -> (r: bool)
        ensures
            r == holds_leadership(self@, leader@),
    {
        match self.fence_scan(leader) {
            Some(i) => {
                proof {
                    assert(fences(self@, i as int, leader@));
                }
                true
            },
            None => false,
        }
    }

    /// Whether the token currently leads its election: it fences a live
    /// entry and that entry's key is the smallest of its election.
    pub fn is_leading(&self, leader: &LeaderKey) -> (r: bool)
        requires
            self@.wf(),
        ensures
            r == leads(self@, leader@),
    {
        match self.fence_scan(leader) {
            None => {
                proof {
                    if leads(self@, leader@) {
                        let w = choose|i: int|
                            #[trigger] fences(self@, i, leader@) && is_leader_at(
                                self@,
                                i,
                                self@.entries[i].name,
                            );
                        assert(holds_leadership(self@, leader@));
                        assert(false);
                    }
                }
                false
            },
            Some(i) => {
                let nm = clone_bytes(&self.entries[i].name);
                match self.leader_scan(&nm) {
                    Some(b) => {
                        if b == i {
                            proof {
                                assert(fences(self@, i as int, leader@) && is_leader_at(
                                    self@,
                                    i as int,
                                    self@.entries[i as int].name,
                                ));
                            }
                            true
                        } else {
                            proof {
                                if leads(self@, leader@) {
                                    let w = choose|k: int|
                                        #[trigger] fences(self@, k, leader@) && is_leader_at(
                                            self@,
                                            k,
                                            self@.entries[k].name,
                                        );
                                    lemma_fence_unique(self@, leader@, w, i as int);
                                    lemma_at_most_one_leader(self@, nm@, i as int, b as int);
                                    assert(false);
                                }
                            }
                            false
                        }
                    },
                    None => {
                        proof {
                            assert(is_candidate(self@, i as int, nm@));
                            assert(false);
                        }
                        false
                    },
                }
            },
        }
    }

    /// The current leader entry of `name`, if any candidacy is live.
    pub fn get_smallest(&self, name: &Vec<u8>) -> (r: Option<&StoreEntry>)
        requires
            self@.wf(),
        ensures
            match r {
                Some(e) => has_leader(self@, name@) && e@ == self@.entries[leader_idx(
                    self@,
                    name@,
                )],
                None => !has_leader(self@, name@),
            },
    {
        match self.leader_scan(name) {
            Some(i) => {
                proof {
                    assert(has_leader(self@, name@));
                    lemma_at_most_one_leader(self@, name@, leader_idx(self@, name@), i as int);
                }
                Some(&self.entries[i])
            },
            None => None,
        }
    }

    /// Point-in-time read of the current leader of `name`: the value and
    /// metadata of whichever key currently holds the smallest creation
    /// revision.  Fails with `NoLeader` exactly when no live candidacy
    /// exists; non-blocking, unlike a campaign.
    pub fn leader(&self, name: &Vec<u8>) -> (r: Result<LeaderResponse, Error>)
        requires
            self@.wf(),
        ensures
            match r {
                Ok(resp) => {
                    &&& has_leader(self@, name@)
                    &&& resp.header matches Some(h) && h == (ResponseHeader {
                        cluster_id: 0,
                        member_id: 0,
                        revision: self.revision,
                        raft_term: 0,
                    })
                    &&& resp.kv matches Some(kv) && {
                        let e = self@.entries[leader_idx(self@, name@)];
                        &&& kv.key@ == e.key
                        &&& kv.value@ == e.value
                        &&& kv.create_revision as int == e.create_rev
                        &&& kv.mod_revision as int == e.mod_rev
                        &&& kv.version as int == e.version
                        &&& kv.lease == e.lease
                    }
                },
                Err(err) => err == Error::NoLeader && !has_leader(self@, name@),
            },
    {
        match self.get_smallest(name) {
            Some(e) => {
                let kv = KeyValue::new(
                    clone_bytes(&e.key),
                    e.create_rev,
                    e.mod_rev,
                    e.version,
                    clone_bytes(&e.value),
                    e.lease,
                );
                Ok(LeaderResponse::new(
                    Some(ResponseHeader::new(0, 0, self.revision, 0)),
                    Some(kv),
                ))
            },
            None => Err(Error::NoLeader),
        }
    }

    /// Announces a new value through the fencing token, without another
    /// election: the update happens only if the token's key still exists
    /// with the recorded creation revision.  Fails with `LeadershipLost`
    /// exactly when the fencing check fails, and then nothing changes.
    pub fn proclaim(&mut self, leader: &LeaderKey, value: &Vec<u8>) -> (r: Result<
        ProclaimResponse,
        Error,
    >)
        requires
            old(self)@.wf(),
            old(self)@.revision < i64::MAX,
        ensures
            final(self)@ == proclaim_model(old(self)@, leader@, value@).0,
            final(self)@.wf(),
            r is Ok <==> holds_leadership(old(self)@, leader@),
            match r {
                Ok(resp) => resp.header matches Some(h) && h == (ResponseHeader {
                    cluster_id: 0,
                    member_id: 0,
                    revision: final(self).revision,
                    raft_term: 0,
                }),
                Err(e) => e == Error::LeadershipLost,
            },
    {
        match self.fence_scan(leader) {
            None => Err(Error::LeadershipLost),
            Some(i) => {
                proof {
                    let fi = crate::model::fence_idx(self@, leader@);
                    assert(fences(self@, i as int, leader@));
                    assert(holds_leadership(self@, leader@));
                    assert(fences(self@, fi, leader@));
                    lemma_fence_unique(self@, leader@, fi, i as int);
                    assert(self@.entries[i as int].wf_in(self@.revision));
                    lemma_update_value_wf(self@, i as int, value@);
                }
                let rev = self.revision + 1;
                let ce = self.entries[i].create_rev;
                let ver = self.entries[i].version;
                let le = self.entries[i].lease;
                let ky = clone_bytes(&self.entries[i].key);
                let nm = clone_bytes(&self.entries[i].name);
                let ne = StoreEntry {
                    key: ky,
                    name: nm,
                    lease: le,
                    value: clone_bytes(value),
                    create_rev: ce,
                    mod_rev: rev,
                    version: ver + 1,
                };
                self.entries[i] = ne;
                self.revision = rev;
                proof {
                    let m = proclaim_model(old(self)@, leader@, value@).0;
                    assert(self@.entries =~= m.entries);
                    assert(self@ =~= m);
                }
                Ok(ProclaimResponse::new(Some(ResponseHeader::new(0, 0, rev, 0))))
            },
        }
    }

    /// Relinquishes leadership: deletes the token's key under the same
    /// fencing check as a proclaim, making the election immediately
    /// winnable by the next candidate.  Resigning a token that no longer
    /// denotes live leadership is a no-op success.
    pub fn resign(&mut self, leader: &LeaderKey) -> (r: Result<ResignResponse, Error>)
        requires
            old(self)@.wf(),
            old(self)@.revision < i64::MAX,
        ensures
            final(self)@ == resign_model(old(self)@, leader@).0,
            final(self)@.wf(),
            r matches Ok(resp) && resp.header matches Some(h) && h == (ResponseHeader {
                cluster_id: 0,
                member_id: 0,
                revision: final(self).revision,
                raft_term: 0,
            }),
    {
        match self.fence_scan(leader) {
            None => Ok(ResignResponse::new(Some(ResponseHeader::new(0, 0, self.revision, 0)))),
            Some(i) => {
                proof {
                    let fi = crate::model::fence_idx(self@, leader@);
                    assert(fences(self@, i as int, leader@));
                    assert(holds_leadership(self@, leader@));
                    assert(fences(self@, fi, leader@));
                    lemma_fence_unique(self@, leader@, fi, i as int);
                    crate::model::lemma_remove_entry_wf(self@, i as int);
                }
                let _removed = self.entries.remove(i);
                let rev = self.revision + 1;
                self.revision = rev;
                proof {
                    let m = resign_model(old(self)@, leader@).0;
                    assert(self@.entries =~= m.entries);
                    assert(self@ =~= m);
                }
                Ok(ResignResponse::new(Some(ResponseHeader::new(0, 0, rev, 0))))
            },
        }
    }
}

} // verus!
