//! Mathematical model of the revision-versioned, lease-bound key-value
//! store that elections run against, and of the election transitions.
//!
//! Every executable operation on [`crate::store::ElectionStore`] is pinned
//! to one of the transition functions here, and the laws in
//! [`crate::laws`] are proved over these functions alone.

use vstd::prelude::*;

use crate::errors::Error;

verus! {

/// One live candidacy key in the store.
#[verifier::ext_equal]
pub ghost struct EntryModel {
    /// The full ordered key written for this candidacy.
    pub key: Seq<u8>,
    /// The election name: the prefix the key was written under.
    pub name: Seq<u8>,
    /// The lease the key is bound to; when it expires the key is removed.
    pub lease: i64,
    /// The value currently announced by this candidate.
    pub value: Seq<u8>,
    /// The revision at which the key was created.  Strictly increasing and
    /// unique per write, so it totally orders the candidates.
    pub create_rev: int,
    /// The revision of the last write to the key.
    pub mod_rev: int,
    /// Number of writes to the key since creation.
    pub version: int,
}

/// The store state visible to the election protocol: the live candidacy
/// keys, the store-wide revision counter, and the live leases.
#[verifier::ext_equal]
pub ghost struct StoreModel {
    pub entries: Seq<EntryModel>,
    pub revision: int,
    pub leases: Seq<i64>,
}

/// A fencing token, at the model level.
#[verifier::ext_equal]
pub ghost struct LeaderKeyModel {
    pub name: Seq<u8>,
    pub key: Seq<u8>,
    pub rev: int,
    pub lease: i64,
}

/// Byte `i` (big-endian, `0 <= i < 8`) of a lease ID.
pub open spec fn lease_byte(lease: i64, i: int) -> u8 {
    (((lease as u64) >> ((56 - 8 * i) as u64)) & 0xff) as u8
}

/// The eight big-endian bytes of a lease ID.
pub open spec fn lease_bytes(lease: i64) -> Seq<u8> {
    Seq::new(8, |i: int| lease_byte(lease, i))
}

/// The ordered key a candidacy with the given lease writes under the given
/// election name: the name, a separator, and the lease bytes.  The suffix
/// has fixed length, so distinct (name, lease) pairs give distinct keys.
pub open spec fn candidate_key(name: Seq<u8>, lease: i64) -> Seq<u8> {
    name.push(47u8) + lease_bytes(lease)
}

impl StoreModel {
    /// Well-formedness: revisions are consistent and every candidacy key
    /// is the ordered key of its (name, lease) pair; creation revisions
    /// and keys are unique across live entries.
    pub open spec fn wf(self) -> bool {
        &&& 0 <= self.revision
        &&& forall|i: int|
            0 <= i < self.entries.len() ==> (#[trigger] self.entries[i]).wf_in(self.revision)
        &&& forall|i: int, j: int|
            0 <= i < self.entries.len() && 0 <= j < self.entries.len() && i != j
                ==> #[trigger] self.entries[i].create_rev != #[trigger] self.entries[j].create_rev
        &&& forall|i: int, j: int|
            0 <= i < self.entries.len() && 0 <= j < self.entries.len() && i != j
                ==> #[trigger] self.entries[i].key != #[trigger] self.entries[j].key
    }
}

impl EntryModel {
    /// What holds of every live entry in a store at revision `rev`.
    pub open spec fn wf_in(self, rev: int) -> bool {
        &&& 1 <= self.create_rev <= self.mod_rev <= rev
        &&& 1 <= self.version <= self.mod_rev
        &&& self.name.len() > 0
        &&& self.key == candidate_key(self.name, self.lease)
    }
}

/// Entry `i` is a live candidacy for the election `name`.
pub open spec fn is_candidate(s: StoreModel, i: int, name: Seq<u8>) -> bool {
    0 <= i < s.entries.len() && s.entries[i].name == name
}

/// Entry `i` is the leader of election `name`: a live candidacy whose
/// creation revision is smallest among all live candidacies for `name`.
pub open spec fn is_leader_at(s: StoreModel, i: int, name: Seq<u8>) -> bool {
    &&& is_candidate(s, i, name)
    &&& forall|j: int|
        #[trigger] is_candidate(s, j, name) ==> s.entries[i].create_rev <= s.entries[j].create_rev
}

/// Some live candidacy for `name` is the leader.
pub open spec fn has_leader(s: StoreModel, name: Seq<u8>) -> bool {
    exists|i: int| is_leader_at(s, i, name)
}

/// The index of the leader of `name` (meaningful when `has_leader`).
pub open spec fn leader_idx(s: StoreModel, name: Seq<u8>) -> int {
    choose|i: int| is_leader_at(s, i, name)
}

/// Entry `i` proves the fencing token `lk`: the key still exists with the
/// creation revision recorded in the token.
pub open spec fn fences(s: StoreModel, i: int, lk: LeaderKeyModel) -> bool {
    &&& 0 <= i < s.entries.len()
    &&& s.entries[i].key == lk.key
    &&& s.entries[i].create_rev == lk.rev
}

/// The token `lk` still denotes live leadership resources: its key exists
/// with the recorded creation revision.
pub open spec fn holds_leadership(s: StoreModel, lk: LeaderKeyModel) -> bool {
    exists|i: int| fences(s, i, lk)
}

/// The index of the entry fenced by `lk` (meaningful when
/// `holds_leadership`; unique in a well-formed store).
pub open spec fn fence_idx(s: StoreModel, lk: LeaderKeyModel) -> int {
    choose|i: int| fences(s, i, lk)
}

/// The token `lk` currently leads its election: it fences a live entry
/// and that entry is the smallest-revision candidacy of its election.
pub open spec fn leads(s: StoreModel, lk: LeaderKeyModel) -> bool {
    exists|i: int| #[trigger] fences(s, i, lk) && is_leader_at(s, i, s.entries[i].name)
}

/// There is an entry with exactly this key.
pub open spec fn has_key(s: StoreModel, key: Seq<u8>) -> bool {
    exists|i: int| 0 <= i < s.entries.len() && (#[trigger] s.entries[i]).key == key
}

/// The index of the entry with this key (meaningful when `has_key`).
pub open spec fn key_idx(s: StoreModel, key: Seq<u8>) -> int {
    choose|i: int| 0 <= i < s.entries.len() && (#[trigger] s.entries[i]).key == key
}

/// Granting a lease: the lease becomes live; nothing in the key space
/// changes.
pub open spec fn grant_model(s: StoreModel, lease: i64) -> StoreModel {
    StoreModel { leases: s.leases.push(lease), ..s }
}

/// The entries that survive when `lease` expires: all those bound to a
/// different lease, in their original order.
pub open spec fn without_lease(entries: Seq<EntryModel>, lease: i64) -> Seq<EntryModel>
    decreases entries.len(),
{
    if entries.len() == 0 {
        entries
    } else {
        let rest = without_lease(entries.drop_last(), lease);
        if entries.last().lease == lease {
            rest
        } else {
            rest.push(entries.last())
        }
    }
}

/// The lease IDs that remain live when `id` is withdrawn.
pub open spec fn without_id(leases: Seq<i64>, id: i64) -> Seq<i64>
    decreases leases.len(),
{
    if leases.len() == 0 {
        leases
    } else {
        let rest = without_id(leases.drop_last(), id);
        if leases.last() == id {
            rest
        } else {
            rest.push(leases.last())
        }
    }
}

/// Lease expiry or revocation: every key bound to the lease is removed in
/// one mutation, and the lease stops being live.  This is the sole
/// liveness-recovery mechanism for abandoned candidacies.
pub open spec fn revoke_model(s: StoreModel, lease: i64) -> StoreModel {
    StoreModel {
        entries: without_lease(s.entries, lease),
        revision: s.revision + 1,
        leases: without_id(s.leases, lease),
    }
}

/// Registering a candidacy (the write path of Campaign).
///
/// An empty election name is rejected; a lease that is not live is
/// rejected.  Otherwise the candidate's ordered key is written: created
/// fresh with the next revision, or, if this (name, lease) pair already
/// has a live key, that key is re-used (its creation revision — the
/// fencing value — is unchanged) and its value is overwritten.
pub open spec fn campaign_model(s: StoreModel, name: Seq<u8>, value: Seq<u8>, lease: i64) -> (
    StoreModel,
    Result<LeaderKeyModel, Error>,
) {
    if name.len() == 0 {
        (s, Err(Error::InvalidArgument))
    } else if !s.leases.contains(lease) {
        (s, Err(Error::LeaseNotFound))
    } else {
        let key = candidate_key(name, lease);
        let rev = s.revision + 1;
        if has_key(s, key) {
            let i = key_idx(s, key);
            let e = s.entries[i];
            (
                StoreModel {
                    entries: s.entries.update(
                        i,
                        EntryModel { value, mod_rev: rev, version: e.version + 1, ..e },
                    ),
                    revision: rev,
                    ..s
                },
                Ok(LeaderKeyModel { name, key, rev: e.create_rev, lease }),
            )
        } else {
            (
                StoreModel {
                    entries: s.entries.push(
                        EntryModel {
                            key,
                            name,
                            lease,
                            value,
                            create_rev: rev,
                            mod_rev: rev,
                            version: 1,
                        },
                    ),
                    revision: rev,
                    ..s
                },
                Ok(LeaderKeyModel { name, key, rev, lease }),
            )
        }
    }
}

/// Announcing a new value through a fencing token (Proclaim).
///
/// The write happens only if the token still fences a live entry; a stale
/// or preempted holder changes nothing and learns `LeadershipLost`.
pub open spec fn proclaim_model(s: StoreModel, lk: LeaderKeyModel, value: Seq<u8>) -> (
    StoreModel,
    Result<(), Error>,
) {
    if holds_leadership(s, lk) {
        let i = fence_idx(s, lk);
        let e = s.entries[i];
        (
            StoreModel {
                entries: s.entries.update(
                    i,
                    EntryModel { value, mod_rev: s.revision + 1, version: e.version + 1, ..e },
                ),
                revision: s.revision + 1,
                ..s
            },
            Ok(()),
        )
    } else {
        (s, Err(Error::LeadershipLost))
    }
}

/// Relinquishing leadership (Resign).
///
/// Deletes the candidacy key under the same fencing check as Proclaim.
/// Resigning a token that no longer denotes live leadership is a no-op
/// success: the desired post-condition already holds.
pub open spec fn resign_model(s: StoreModel, lk: LeaderKeyModel) -> (
    StoreModel,
    Result<(), Error>,
) {
    if holds_leadership(s, lk) {
        (
            StoreModel {
                entries: s.entries.remove(fence_idx(s, lk)),
                revision: s.revision + 1,
                ..s
            },
            Ok(()),
        )
    } else {
        (s, Ok(()))
    }
}

/// Two entries with the same key are the same entry.
pub proof fn lemma_key_unique(s: StoreModel, i: int, j: int)
    requires
        s.wf(),
        0 <= i < s.entries.len(),
        0 <= j < s.entries.len(),
        s.entries[i].key == s.entries[j].key,
    ensures
        i == j,
{
    if i != j {
        assert(s.entries[i].key != s.entries[j].key);
        assert(false);
    }
}

/// Two entries fencing the same token are the same entry.
pub proof fn lemma_fence_unique(s: StoreModel, lk: LeaderKeyModel, i: int, j: int)
    requires
        s.wf(),
        fences(s, i, lk),
        fences(s, j, lk),
    ensures
        i == j,
{
    lemma_key_unique(s, i, j);
}

/// The eight big-endian bytes of a lease determine the lease.
pub proof fn lemma_lease_bytes_injective(a: i64, b: i64)
    requires
        lease_bytes(a) == lease_bytes(b),
    ensures
        a == b,
{
    let x = a as u64;
    let y = b as u64;
    assert forall|k: int| 0 <= k < 8 implies lease_byte(a, k) == lease_byte(b, k) by {
        assert(lease_bytes(a)[k] == lease_byte(a, k));
        assert(lease_bytes(b)[k] == lease_byte(b, k));
    }
    assert(lease_byte(a, 0) == lease_byte(b, 0));
    assert(lease_byte(a, 1) == lease_byte(b, 1));
    assert(lease_byte(a, 2) == lease_byte(b, 2));
    assert(lease_byte(a, 3) == lease_byte(b, 3));
    assert(lease_byte(a, 4) == lease_byte(b, 4));
    assert(lease_byte(a, 5) == lease_byte(b, 5));
    assert(lease_byte(a, 6) == lease_byte(b, 6));
    assert(lease_byte(a, 7) == lease_byte(b, 7));
    assert(x == y) by (bit_vector)
        requires
            ((x >> 56u64) & 0xff) as u8 == ((y >> 56u64) & 0xff) as u8,
            ((x >> 48u64) & 0xff) as u8 == ((y >> 48u64) & 0xff) as u8,
            ((x >> 40u64) & 0xff) as u8 == ((y >> 40u64) & 0xff) as u8,
            ((x >> 32u64) & 0xff) as u8 == ((y >> 32u64) & 0xff) as u8,
            ((x >> 24u64) & 0xff) as u8 == ((y >> 24u64) & 0xff) as u8,
            ((x >> 16u64) & 0xff) as u8 == ((y >> 16u64) & 0xff) as u8,
            ((x >> 8u64) & 0xff) as u8 == ((y >> 8u64) & 0xff) as u8,
            ((x >> 0u64) & 0xff) as u8 == ((y >> 0u64) & 0xff) as u8,
    ;
    assert(a == b) by (bit_vector)
        requires
            (a as u64) == (b as u64),
    ;
}

/// Distinct (name, lease) pairs write distinct ordered keys: the lease
/// suffix has fixed length, so name and lease are both recoverable.
pub proof fn lemma_candidate_key_injective(n1: Seq<u8>, l1: i64, n2: Seq<u8>, l2: i64)
    requires
        candidate_key(n1, l1) == candidate_key(n2, l2),
    ensures
        n1 == n2,
        l1 == l2,
{
    let k1 = candidate_key(n1, l1);
    let k2 = candidate_key(n2, l2);
    assert(k1.len() == n1.len() + 9);
    assert(k2.len() == n2.len() + 9);
    assert(n1.len() == n2.len());
    assert forall|i: int| 0 <= i < n1.len() implies n1[i] == n2[i] by {
        assert(k1[i] == n1[i]);
        assert(k2[i] == n2[i]);
    }
    assert(n1 =~= n2);
    assert forall|i: int| 0 <= i < 8 implies lease_bytes(l1)[i] == lease_bytes(l2)[i] by {
        assert(k1[n1.len() + 1 + i] == lease_bytes(l1)[i]);
        assert(k2[n2.len() + 1 + i] == lease_bytes(l2)[i]);
    }
    assert(lease_bytes(l1) =~= lease_bytes(l2));
    lemma_lease_bytes_injective(l1, l2);
}

/// Overwriting the value of a live entry (next revision, same creation
/// revision and key) keeps the store well-formed.
pub proof fn lemma_update_value_wf(s: StoreModel, i: int, value: Seq<u8>)
    requires
        s.wf(),
        0 <= i < s.entries.len(),
    ensures
        (StoreModel {
            entries: s.entries.update(
                i,
                EntryModel {
                    value,
                    mod_rev: s.revision + 1,
                    version: s.entries[i].version + 1,
                    ..s.entries[i]
                },
            ),
            revision: s.revision + 1,
            ..s
        }).wf(),
{
    let s2 = StoreModel {
        entries: s.entries.update(
            i,
            EntryModel {
                value,
                mod_rev: s.revision + 1,
                version: s.entries[i].version + 1,
                ..s.entries[i]
            },
        ),
        revision: s.revision + 1,
        ..s
    };
    assert(s.entries[i].wf_in(s.revision));
    assert forall|j: int| 0 <= j < s2.entries.len() implies (#[trigger] s2.entries[j]).wf_in(
        s2.revision,
    ) by {
        if j != i {
            assert(s.entries[j].wf_in(s.revision));
        }
    }
    assert forall|a: int, b: int|
        0 <= a < s2.entries.len() && 0 <= b < s2.entries.len() && a != b implies #[trigger] s2
        .entries[a].create_rev != #[trigger] s2.entries[b].create_rev by {
        assert(s.entries[a].create_rev != s.entries[b].create_rev);
        assert(s2.entries[a].create_rev == s.entries[a].create_rev);
        assert(s2.entries[b].create_rev == s.entries[b].create_rev);
    }
    assert forall|a: int, b: int|
        0 <= a < s2.entries.len() && 0 <= b < s2.entries.len() && a != b implies #[trigger] s2
        .entries[a].key != #[trigger] s2.entries[b].key by {
        assert(s.entries[a].key != s.entries[b].key);
        assert(s2.entries[a].key == s.entries[a].key);
        assert(s2.entries[b].key == s.entries[b].key);
    }
}

/// Writing a fresh candidacy key at the next revision keeps the store
/// well-formed.
pub proof fn lemma_push_candidate_wf(s: StoreModel, name: Seq<u8>, value: Seq<u8>, lease: i64)
    requires
        s.wf(),
        name.len() > 0,
        !has_key(s, candidate_key(name, lease)),
    ensures
        (StoreModel {
            entries: s.entries.push(
                EntryModel {
                    key: candidate_key(name, lease),
                    name,
                    lease,
                    value,
                    create_rev: s.revision + 1,
                    mod_rev: s.revision + 1,
                    version: 1,
                },
            ),
            revision: s.revision + 1,
            ..s
        }).wf(),
{
    let key = candidate_key(name, lease);
    let e = EntryModel {
        key,
        name,
        lease,
        value,
        create_rev: s.revision + 1,
        mod_rev: s.revision + 1,
        version: 1,
    };
    let s2 = StoreModel { entries: s.entries.push(e), revision: s.revision + 1, ..s };
    let n = s.entries.len() as int;
    assert forall|j: int| 0 <= j < s2.entries.len() implies (#[trigger] s2.entries[j]).wf_in(
        s2.revision,
    ) by {
        if j < n {
            assert(s2.entries[j] == s.entries[j]);
            assert(s.entries[j].wf_in(s.revision));
        } else {
            assert(s2.entries[j] == e);
        }
    }
    assert forall|a: int, b: int|
        0 <= a < s2.entries.len() && 0 <= b < s2.entries.len() && a != b implies #[trigger] s2
        .entries[a].create_rev != #[trigger] s2.entries[b].create_rev by {
        if a < n && b < n {
            assert(s.entries[a].create_rev != s.entries[b].create_rev);
        } else if a < n {
            assert(s.entries[a].wf_in(s.revision));
        } else if b < n {
            assert(s.entries[b].wf_in(s.revision));
        }
    }
    assert forall|a: int, b: int|
        0 <= a < s2.entries.len() && 0 <= b < s2.entries.len() && a != b implies #[trigger] s2
        .entries[a].key != #[trigger] s2.entries[b].key by {
        if a < n && b < n {
            assert(s.entries[a].key != s.entries[b].key);
        } else if a < n {
            assert(s2.entries[b] == e);
            assert(s.entries[a].key != key);
        } else if b < n {
            assert(s2.entries[a] == e);
            assert(s.entries[b].key != key);
        }
    }
}

/// Deleting one live entry at the next revision keeps the store
/// well-formed.
pub proof fn lemma_remove_entry_wf(s: StoreModel, i: int)
    requires
        s.wf(),
        0 <= i < s.entries.len(),
    ensures
        (StoreModel { entries: s.entries.remove(i), revision: s.revision + 1, ..s }).wf(),
{
    let s2 = StoreModel { entries: s.entries.remove(i), revision: s.revision + 1, ..s };
    assert forall|j: int| 0 <= j < s2.entries.len() implies (#[trigger] s2.entries[j]).wf_in(
        s2.revision,
    ) by {
        if j < i {
            assert(s2.entries[j] == s.entries[j]);
            assert(s.entries[j].wf_in(s.revision));
        } else {
            assert(s2.entries[j] == s.entries[j + 1]);
            assert(s.entries[j + 1].wf_in(s.revision));
        }
    }
    assert forall|a: int, b: int|
        0 <= a < s2.entries.len() && 0 <= b < s2.entries.len() && a != b implies #[trigger] s2
        .entries[a].create_rev != #[trigger] s2.entries[b].create_rev by {
        let a0 = if a < i { a } else { a + 1 };
        let b0 = if b < i { b } else { b + 1 };
        assert(s2.entries[a] == s.entries[a0]);
        assert(s2.entries[b] == s.entries[b0]);
        assert(s.entries[a0].create_rev != s.entries[b0].create_rev);
    }
    assert forall|a: int, b: int|
        0 <= a < s2.entries.len() && 0 <= b < s2.entries.len() && a != b implies #[trigger] s2
        .entries[a].key != #[trigger] s2.entries[b].key by {
        let a0 = if a < i { a } else { a + 1 };
        let b0 = if b < i { b } else { b + 1 };
        assert(s2.entries[a] == s.entries[a0]);
        assert(s2.entries[b] == s.entries[b0]);
        assert(s.entries[a0].key != s.entries[b0].key);
    }
}

/// Every entry surviving a lease expiry is one of the original entries,
/// bound to a different lease.
pub proof fn lemma_without_lease_membership(entries: Seq<EntryModel>, lease: i64)
    ensures
        forall|i: int|
            0 <= i < without_lease(entries, lease).len() ==> {
                &&& entries.contains(#[trigger] without_lease(entries, lease)[i])
                &&& without_lease(entries, lease)[i].lease != lease
            },
    decreases entries.len(),
{
    let f = without_lease(entries, lease);
    if entries.len() == 0 {
    } else {
        let dl = entries.drop_last();
        lemma_without_lease_membership(dl, lease);
        let fd = without_lease(dl, lease);
        assert forall|i: int|
            0 <= i < f.len() implies {
                &&& entries.contains(#[trigger] f[i])
                &&& f[i].lease != lease
            } by {
            if i < fd.len() {
                assert(fd[i] == f[i]);
                assert(dl.contains(fd[i]));
                let w = choose|k: int| 0 <= k < dl.len() && dl[k] == fd[i];
                assert(entries[w] == fd[i]);
            } else {
                assert(f[i] == entries.last());
                assert(entries[entries.len() - 1] == entries.last());
            }
        }
    }
}

/// The entries surviving a lease expiry keep pairwise distinct creation
/// revisions and keys.
pub proof fn lemma_without_lease_distinct(entries: Seq<EntryModel>, lease: i64)
    requires
        forall|i: int, j: int|
            0 <= i < entries.len() && 0 <= j < entries.len() && i != j
                ==> #[trigger] entries[i].create_rev != #[trigger] entries[j].create_rev,
        forall|i: int, j: int|
            0 <= i < entries.len() && 0 <= j < entries.len() && i != j
                ==> #[trigger] entries[i].key != #[trigger] entries[j].key,
    ensures
        forall|i: int, j: int|
            0 <= i < without_lease(entries, lease).len() && 0 <= j < without_lease(
                entries,
                lease,
            ).len() && i != j ==> #[trigger] without_lease(entries, lease)[i].create_rev
                != #[trigger] without_lease(entries, lease)[j].create_rev,
        forall|i: int, j: int|
            0 <= i < without_lease(entries, lease).len() && 0 <= j < without_lease(
                entries,
                lease,
            ).len() && i != j ==> #[trigger] without_lease(entries, lease)[i].key
                != #[trigger] without_lease(entries, lease)[j].key,
    decreases entries.len(),
{
    let f = without_lease(entries, lease);
    if entries.len() == 0 {
    } else {
        let dl = entries.drop_last();
        let last = entries.last();
        assert forall|i: int, j: int|
            0 <= i < dl.len() && 0 <= j < dl.len() && i != j implies #[trigger] dl[i].create_rev
            != #[trigger] dl[j].create_rev by {
            assert(entries[i].create_rev != entries[j].create_rev);
        }
        assert forall|i: int, j: int|
            0 <= i < dl.len() && 0 <= j < dl.len() && i != j implies #[trigger] dl[i].key
            != #[trigger] dl[j].key by {
            assert(entries[i].key != entries[j].key);
        }
        lemma_without_lease_distinct(dl, lease);
        lemma_without_lease_membership(dl, lease);
        let fd = without_lease(dl, lease);
        if last.lease != lease {
            assert(f == fd.push(last));
            assert forall|i: int, j: int|
                0 <= i < f.len() && 0 <= j < f.len() && i != j implies #[trigger] f[i].create_rev
                != #[trigger] f[j].create_rev by {
                if i < fd.len() && j < fd.len() {
                    assert(f[i] == fd[i]);
                    assert(f[j] == fd[j]);
                } else if i < fd.len() {
                    assert(f[j] == last);
                    assert(f[i] == fd[i]);
                    assert(dl.contains(fd[i]));
                    let w = choose|k: int| 0 <= k < dl.len() && dl[k] == fd[i];
                    assert(entries[w] == fd[i]);
                    assert(entries[entries.len() - 1] == last);
                    assert(entries[w].create_rev != entries[entries.len() - 1].create_rev);
                } else if j < fd.len() {
                    assert(f[i] == last);
                    assert(f[j] == fd[j]);
                    assert(dl.contains(fd[j]));
                    let w = choose|k: int| 0 <= k < dl.len() && dl[k] == fd[j];
                    assert(entries[w] == fd[j]);
                    assert(entries[entries.len() - 1] == last);
                    assert(entries[w].create_rev != entries[entries.len() - 1].create_rev);
                }
            }
            assert forall|i: int, j: int|
                0 <= i < f.len() && 0 <= j < f.len() && i != j implies #[trigger] f[i].key
                != #[trigger] f[j].key by {
                if i < fd.len() && j < fd.len() {
                    assert(f[i] == fd[i]);
                    assert(f[j] == fd[j]);
                } else if i < fd.len() {
                    assert(f[j] == last);
                    assert(f[i] == fd[i]);
                    assert(dl.contains(fd[i]));
                    let w = choose|k: int| 0 <= k < dl.len() && dl[k] == fd[i];
                    assert(entries[w] == fd[i]);
                    assert(entries[entries.len() - 1] == last);
                    assert(entries[w].key != entries[entries.len() - 1].key);
                } else if j < fd.len() {
                    assert(f[i] == last);
                    assert(f[j] == fd[j]);
                    assert(dl.contains(fd[j]));
                    let w = choose|k: int| 0 <= k < dl.len() && dl[k] == fd[j];
                    assert(entries[w] == fd[j]);
                    assert(entries[entries.len() - 1] == last);
                    assert(entries[w].key != entries[entries.len() - 1].key);
                }
            }
        }
    }
}

/// Lease expiry keeps the store well-formed: the surviving entries are a
/// subsequence of the original ones, so revisions and keys stay unique.
pub proof fn lemma_revoke_wf(s: StoreModel, lease: i64)
    requires
        s.wf(),
    ensures
        revoke_model(s, lease).wf(),
{
    lemma_without_lease_distinct(s.entries, lease);
    lemma_without_lease_membership(s.entries, lease);
    let s2 = revoke_model(s, lease);
    assert forall|j: int| 0 <= j < s2.entries.len() implies (#[trigger] s2.entries[j]).wf_in(
        s2.revision,
    ) by {
        assert(s.entries.contains(s2.entries[j]));
        let w = choose|k: int| 0 <= k < s.entries.len() && s.entries[k] == s2.entries[j];
        assert(s.entries[w].wf_in(s.revision));
    }
}

} // verus!
