//! The laws of the election protocol, proved over the model transitions
//! of [`crate::model`].

use vstd::prelude::*;

use crate::errors::Error;
use crate::model::campaign_model;
use crate::model::candidate_key;
use crate::model::fence_idx;
use crate::model::fences;
use crate::model::has_key;
use crate::model::has_leader;
use crate::model::holds_leadership;
use crate::model::is_candidate;
use crate::model::is_leader_at;
use crate::model::key_idx;
use crate::model::lemma_candidate_key_injective;
use crate::model::lemma_key_unique;
use crate::model::lemma_remove_entry_wf;
use crate::model::proclaim_model;
use crate::model::resign_model;
use crate::model::LeaderKeyModel;
use crate::model::StoreModel;

verus! {

/// Law: an election has at most one leader.  Two entries that are both
/// smallest-revision candidacies of the same election are the same entry:
/// ties are impossible because creation revisions are unique per write.
pub proof fn lemma_at_most_one_leader(s: StoreModel, name: Seq<u8>, i: int, j: int)
    requires
        s.wf(),
        is_leader_at(s, i, name),
        is_leader_at(s, j, name),
    ensures
        i == j,
{
    if i != j {
        assert(is_candidate(s, i, name));
        assert(is_candidate(s, j, name));
        assert(s.entries[i].create_rev <= s.entries[j].create_rev);
        assert(s.entries[j].create_rev <= s.entries[i].create_rev);
        assert(s.entries[i].create_rev != s.entries[j].create_rev);
        assert(false);
    }
}

/// The minimum-revision candidacy among the first `n` entries exists as
/// soon as any candidacy does.
proof fn lemma_min_candidate_upto(s: StoreModel, name: Seq<u8>, n: int)
    requires
        0 <= n <= s.entries.len(),
        exists|i: int| 0 <= i < n && #[trigger] is_candidate(s, i, name),
    ensures
        exists|i: int|
            #![auto]
            0 <= i < n && is_candidate(s, i, name) && (forall|j: int|
                0 <= j < n && #[trigger] is_candidate(s, j, name) ==> s.entries[i].create_rev
                    <= s.entries[j].create_rev),
    decreases n,
{
    if exists|i: int| 0 <= i < n - 1 && #[trigger] is_candidate(s, i, name) {
        lemma_min_candidate_upto(s, name, n - 1);
        let i0 = choose|i: int|
            #![auto]
            0 <= i < n - 1 && is_candidate(s, i, name) && (forall|j: int|
                0 <= j < n - 1 && #[trigger] is_candidate(s, j, name) ==> s.entries[i].create_rev
                    <= s.entries[j].create_rev);
        if is_candidate(s, n - 1, name) && s.entries[n - 1].create_rev
            < s.entries[i0].create_rev {
            assert(forall|j: int|
                0 <= j < n && #[trigger] is_candidate(s, j, name) ==> s.entries[n
                    - 1].create_rev <= s.entries[j].create_rev);
        } else {
            assert(forall|j: int|
                0 <= j < n && #[trigger] is_candidate(s, j, name) ==> s.entries[i0].create_rev
                    <= s.entries[j].create_rev);
        }
    } else {
        let w = choose|i: int| 0 <= i < n && #[trigger] is_candidate(s, i, name);
        assert(w == n - 1);
        assert(forall|j: int|
            0 <= j < n && #[trigger] is_candidate(s, j, name) ==> s.entries[n - 1].create_rev
                <= s.entries[j].create_rev);
    }
}

/// Law: an election with at least one live candidacy has a leader.
/// Together with [`lemma_at_most_one_leader`], exactly one campaign is
/// leading at any given moment; the others stay behind it.
pub proof fn lemma_leader_exists(s: StoreModel, name: Seq<u8>)
    requires
        exists|i: int| is_candidate(s, i, name),
    ensures
        has_leader(s, name),
{
    let w = choose|i: int| is_candidate(s, i, name);
    assert(0 <= w < s.entries.len() && is_candidate(s, w, name));
    lemma_min_candidate_upto(s, name, s.entries.len() as int);
    let m = choose|i: int|
        #![auto]
        0 <= i < s.entries.len() && is_candidate(s, i, name) && (forall|j: int|
            0 <= j < s.entries.len() && #[trigger] is_candidate(s, j, name)
                ==> s.entries[i].create_rev <= s.entries[j].create_rev);
    assert(is_leader_at(s, m, name));
}

/// Law: two fencing tokens that both currently lead the same election are
/// the same holding: same key, same creation revision.
pub proof fn lemma_exclusive_leadership(s: StoreModel, lk1: LeaderKeyModel, lk2: LeaderKeyModel)
    requires
        s.wf(),
        crate::model::leads(s, lk1),
        crate::model::leads(s, lk2),
        lk1.key == candidate_key(lk1.name, lk1.lease),
        lk2.key == candidate_key(lk2.name, lk2.lease),
        lk1.name == lk2.name,
    ensures
        lk1.key == lk2.key,
        lk1.rev == lk2.rev,
{
    let i1 = choose|i: int| #[trigger] fences(s, i, lk1) && is_leader_at(s, i, s.entries[i].name);
    let i2 = choose|i: int| #[trigger] fences(s, i, lk2) && is_leader_at(s, i, s.entries[i].name);
    assert(s.entries[i1].wf_in(s.revision));
    assert(s.entries[i2].wf_in(s.revision));
    lemma_candidate_key_injective(
        s.entries[i1].name,
        s.entries[i1].lease,
        lk1.name,
        lk1.lease,
    );
    lemma_candidate_key_injective(
        s.entries[i2].name,
        s.entries[i2].lease,
        lk2.name,
        lk2.lease,
    );
    lemma_at_most_one_leader(s, lk1.name, i1, i2);
}

/// Law: after the leader of an election resigns, a campaign by a
/// different candidate (a distinct lease, with the lease live) yields a
/// new, distinct fencing token with a strictly greater revision.
pub proof fn lemma_resign_then_campaign_fresh(
    s0: StoreModel,
    lk: LeaderKeyModel,
    value: Seq<u8>,
    lease2: i64,
)
    requires
        s0.wf(),
        crate::model::leads(s0, lk),
        lk.key == candidate_key(lk.name, lk.lease),
        lease2 != lk.lease,
        s0.leases.contains(lease2),
    ensures
        ({
            let s1 = resign_model(s0, lk).0;
            let r = campaign_model(s1, lk.name, value, lease2).1;
            &&& r matches Ok(lk2) && lk2.rev > lk.rev && lk2.key != lk.key
        }),
{
    let i = choose|k: int| #[trigger] fences(s0, k, lk) && is_leader_at(s0, k, s0.entries[k].name);
    assert(holds_leadership(s0, lk));
    let fi = fence_idx(s0, lk);
    assert(fences(s0, fi, lk));
    crate::model::lemma_fence_unique(s0, lk, i, fi);
    let s1 = resign_model(s0, lk).0;
    lemma_remove_entry_wf(s0, i);
    assert(s1.wf());
    assert(s0.entries[i].wf_in(s0.revision));
    lemma_candidate_key_injective(s0.entries[i].name, s0.entries[i].lease, lk.name, lk.lease);
    assert(s0.entries[i].name == lk.name);
    assert(lk.name.len() > 0);
    assert(lk.rev == s0.entries[i].create_rev);
    assert(lk.rev <= s0.revision);
    let key2 = candidate_key(lk.name, lease2);
    if key2 == lk.key {
        lemma_candidate_key_injective(lk.name, lease2, lk.name, lk.lease);
        assert(false);
    }
    assert(s1.leases == s0.leases);
    if has_key(s1, key2) {
        let j = key_idx(s1, key2);
        assert(0 <= j < s1.entries.len() && s1.entries[j].key == key2);
        let e = s1.entries[j];
        assert(e.wf_in(s1.revision));
        lemma_candidate_key_injective(e.name, e.lease, lk.name, lease2);
        assert(e.name == lk.name);
        let j0 = if j < i { j } else { j + 1 };
        assert(s1.entries[j] == s0.entries[j0]);
        assert(is_candidate(s0, j0, lk.name));
        assert(is_leader_at(s0, i, lk.name));
        assert(s0.entries[i].create_rev <= s0.entries[j0].create_rev);
        assert(j0 != i) by {
            if j0 == i {
                assert(s0.entries[i].key == lk.key);
                assert(e.key == key2);
            }
        }
        assert(s0.entries[i].create_rev != s0.entries[j0].create_rev);
        assert(e.create_rev > lk.rev);
    } else {
        assert(s1.revision == s0.revision + 1);
    }
}


/// Law: a token issued by a successful campaign fences a live entry of
/// the resulting store: its key exists there with exactly the creation
/// revision recorded in the token.
pub proof fn lemma_campaign_token_is_live(s: StoreModel, name: Seq<u8>, value: Seq<u8>, lease: i64)
    requires
        s.wf(),
        campaign_model(s, name, value, lease).1 is Ok,
    ensures
        ({
            let (s2, r) = campaign_model(s, name, value, lease);
            holds_leadership(s2, r.unwrap())
        }),
{
    let (s2, r) = campaign_model(s, name, value, lease);
    let lk = r.unwrap();
    let key = candidate_key(name, lease);
    if has_key(s, key) {
        let i = key_idx(s, key);
        assert(0 <= i < s.entries.len() && s.entries[i].key == key);
        assert(fences(s2, i, lk));
    } else {
        let i = s.entries.len() as int;
        assert(fences(s2, i, lk));
    }
}

/// Law: announcing a new value through a leading token changes the value
/// and nothing else about the leadership: the same token still leads, and
/// the leader's announced value is the proclaimed one.
pub proof fn lemma_proclaim_keeps_leadership(s: StoreModel, lk: LeaderKeyModel, value: Seq<u8>)
    requires
        s.wf(),
        crate::model::leads(s, lk),
    ensures
        ({
            let s2 = proclaim_model(s, lk, value).0;
            &&& crate::model::leads(s2, lk)
            &&& s2.entries[crate::model::fence_idx(s2, lk)].value == value
        }),
{
    let w = choose|k: int| #[trigger] fences(s, k, lk) && is_leader_at(s, k, s.entries[k].name);
    assert(holds_leadership(s, lk));
    let i = fence_idx(s, lk);
    assert(fences(s, i, lk));
    crate::model::lemma_fence_unique(s, lk, w, i);
    let s2 = proclaim_model(s, lk, value).0;
    let nm = s.entries[i].name;
    assert(fences(s2, i, lk));
    assert forall|j: int| #[trigger] is_candidate(s2, j, nm) implies s2.entries[i].create_rev
        <= s2.entries[j].create_rev by {
        assert(s2.entries[j].name == s.entries[j].name);
        assert(is_candidate(s, j, nm));
        assert(s.entries[i].create_rev <= s.entries[j].create_rev);
    }
    assert(is_candidate(s2, i, nm));
    assert(is_leader_at(s2, i, s2.entries[i].name));
    assert(fences(s2, i, lk) && is_leader_at(s2, i, s2.entries[i].name));
    let fi2 = crate::model::fence_idx(s2, lk);
    assert(fences(s2, fi2, lk));
    assert(s2.wf()) by {
        crate::model::lemma_update_value_wf(s, i, value);
    }
    crate::model::lemma_fence_unique(s2, lk, fi2, i);
}

/// Law: a proclaim through a fencing token whose key has been deleted (or
/// re-created under a different revision) fails with `LeadershipLost` and
/// produces no change at all in the store.
pub proof fn lemma_proclaim_stale(s: StoreModel, lk: LeaderKeyModel, value: Seq<u8>)
    requires
        !holds_leadership(s, lk),
    ensures
        proclaim_model(s, lk, value) == (s, Err::<(), Error>(Error::LeadershipLost)),
{
}

/// Law: resigning a fencing token that no longer denotes live leadership
/// succeeds as a no-op: the store is left exactly as it was.
pub proof fn lemma_resign_stale_noop(s: StoreModel, lk: LeaderKeyModel)
    requires
        !holds_leadership(s, lk),
    ensures
        resign_model(s, lk) == (s, Ok::<(), Error>(())),
{
}

/// Law: resign is idempotent in effect.  After one resign of a token, a
/// second resign of the same token is a no-op success.
pub proof fn lemma_resign_idempotent(s: StoreModel, lk: LeaderKeyModel)
    requires
        s.wf(),
    ensures
        ({
            let s1 = resign_model(s, lk).0;
            resign_model(s1, lk) == (s1, Ok::<(), Error>(()))
        }),
{
    if holds_leadership(s, lk) {
        let i = fence_idx(s, lk);
        assert(fences(s, i, lk));
        let s1 = resign_model(s, lk).0;
        assert(!holds_leadership(s1, lk)) by {
            if holds_leadership(s1, lk) {
                let j = choose|k: int| fences(s1, k, lk);
                let j0 = if j < i { j } else { j + 1 };
                assert(s1.entries[j] == s.entries[j0]);
                assert(s.entries[j0].key == lk.key);
                assert(s.entries[i].key == lk.key);
                lemma_key_unique(s, j0, i);
                assert(false);
            }
        }
        lemma_resign_stale_noop(s1, lk);
    } else {
        lemma_resign_stale_noop(s, lk);
    }
}

} // verus!
