//! Scenario tests for the election protocol: campaigns, fencing,
//! resignation, and the end-to-end handover.

use elector::errors::Error;
use elector::session::ElectionSession;
use elector::session::SessionState;
use elector::store::ElectionStore;

fn name() -> Vec<u8> {
    b"svc".to_vec()
}

#[test]
fn concurrent_campaigns_elect_exactly_one_leader() {
    let mut store = ElectionStore::new();
    store.grant_lease(1);
    store.grant_lease(2);

    let mut a = ElectionSession::new(name(), 1);
    let mut b = ElectionSession::new(name(), 2);

    a.campaign_start(&mut store, &b"a".to_vec()).unwrap();
    b.campaign_start(&mut store, &b"b".to_vec()).unwrap();

    // Exactly one campaign resolves; the other stays suspended.
    let ra = a.campaign_poll(&store).unwrap();
    let rb = b.campaign_poll(&store).unwrap();
    assert!(ra.is_some());
    assert!(rb.is_none());
    assert_eq!(a.state(), SessionState::Leading);
    assert_eq!(b.state(), SessionState::Campaigning);

    // The point-in-time read agrees with the winner.
    let led = store.leader(&name()).unwrap();
    assert_eq!(led.kv().unwrap().value(), b"a");
}

#[test]
fn resign_then_campaign_yields_strictly_greater_revision() {
    let mut store = ElectionStore::new();
    store.grant_lease(1);
    store.grant_lease(2);

    let mut a = ElectionSession::new(name(), 1);
    a.campaign_start(&mut store, &b"a".to_vec()).unwrap();
    let ra = a.campaign_poll(&store).unwrap().unwrap();
    let rev_a = ra.leader().unwrap().rev();

    a.resign(&mut store).unwrap();

    let mut b = ElectionSession::new(name(), 2);
    b.campaign_start(&mut store, &b"b".to_vec()).unwrap();
    let rb = b.campaign_poll(&store).unwrap().unwrap();
    let lk_b = rb.leader().unwrap();

    // A new, distinct token with a strictly greater revision.
    assert!(lk_b.rev() > rev_a);
    assert_ne!(lk_b.key(), ra.leader().unwrap().key());
}

#[test]
fn proclaim_after_key_deleted_fails_with_leadership_lost() {
    let mut store = ElectionStore::new();
    store.grant_lease(1);

    let mut a = ElectionSession::new(name(), 1);
    a.campaign_start(&mut store, &b"v1".to_vec()).unwrap();
    assert!(a.campaign_poll(&store).unwrap().is_some());

    // Simulated lease expiry: the candidacy key disappears.
    store.revoke_lease(1);
    let rev_before = store.revision();

    let err = a.proclaim(&mut store, &b"v2".to_vec()).unwrap_err();
    assert_eq!(err, Error::LeadershipLost);
    // No value change: the store was not touched at all.
    assert_eq!(store.revision(), rev_before);
    assert_eq!(store.leader(&name()).unwrap_err(), Error::NoLeader);
    // The session must stop acting as leader.
    assert_eq!(a.state(), SessionState::Idle);
}

#[test]
fn resign_on_invalid_token_is_noop_success() {
    let mut store = ElectionStore::new();
    store.grant_lease(1);

    let mut a = ElectionSession::new(name(), 1);
    a.campaign_start(&mut store, &b"a".to_vec()).unwrap();
    let resp = a.campaign_poll(&store).unwrap().unwrap();
    let token = resp.leader().unwrap().duplicate();

    // First resign deletes the key.
    assert!(store.resign(&token).is_ok());
    let rev_after_first = store.revision();

    // Second resign of the same token: no-op success, nothing changes.
    assert!(store.resign(&token).is_ok());
    assert_eq!(store.revision(), rev_after_first);

    // A token that never was valid behaves the same.
    let bogus = token.duplicate().with_rev(9999);
    assert!(store.resign(&bogus).is_ok());
    assert_eq!(store.revision(), rev_after_first);
}

#[test]
fn end_to_end_handover() {
    let mut store = ElectionStore::new();
    store.grant_lease(10);
    store.grant_lease(20);

    // Candidate A campaigns and wins.
    let mut a = ElectionSession::new(name(), 10);
    a.campaign_start(&mut store, &b"a".to_vec()).unwrap();
    let ra = a.campaign_poll(&store).unwrap().unwrap();
    let lk_a = ra.leader().unwrap().duplicate();
    assert_eq!(lk_a.lease(), 10);

    // Candidate B campaigns on the same name and stays suspended.
    let mut b = ElectionSession::new(name(), 20);
    b.campaign_start(&mut store, &b"b".to_vec()).unwrap();
    assert!(b.campaign_poll(&store).unwrap().is_none());
    assert_eq!(store.leader(&name()).unwrap().kv().unwrap().value(), b"a");

    // A resigns; B's campaign resolves with a fresh token.
    a.resign(&mut store).unwrap();
    let rb = b.campaign_poll(&store).unwrap().unwrap();
    let lk_b = rb.leader().unwrap();
    assert!(lk_b.rev() > lk_a.rev());
    assert_eq!(lk_b.lease(), 20);

    // After the handover a read never returns A's value again.
    let led = store.leader(&name()).unwrap();
    assert_eq!(led.kv().unwrap().value(), b"b");
}

#[test]
fn campaign_rejects_empty_election_name() {
    let mut store = ElectionStore::new();
    store.grant_lease(1);
    let err = store
        .create_candidate(&Vec::new(), &b"x".to_vec(), 1)
        .unwrap_err();
    assert_eq!(err, Error::InvalidArgument);
}

#[test]
fn campaign_rejects_unknown_lease() {
    let mut store = ElectionStore::new();
    let err = store
        .create_candidate(&name(), &b"x".to_vec(), 7)
        .unwrap_err();
    assert_eq!(err, Error::LeaseNotFound);
}

#[test]
fn leader_read_without_candidates_reports_no_leader() {
    let store = ElectionStore::new();
    assert_eq!(store.leader(&name()).unwrap_err(), Error::NoLeader);
}

#[test]
fn campaign_poll_after_lease_expiry_reports_expired() {
    let mut store = ElectionStore::new();
    store.grant_lease(1);
    store.grant_lease(2);

    let mut a = ElectionSession::new(name(), 1);
    let mut b = ElectionSession::new(name(), 2);
    a.campaign_start(&mut store, &b"a".to_vec()).unwrap();
    b.campaign_start(&mut store, &b"b".to_vec()).unwrap();

    // B's lease expires while it waits behind A.
    store.revoke_lease(2);
    let err = b.campaign_poll(&store).unwrap_err();
    assert_eq!(err, Error::LeaseExpired);
    assert_eq!(b.state(), SessionState::Idle);

    // A is unaffected.
    assert!(store.leader(&name()).is_ok());
}

#[test]
fn proclaim_updates_value_without_new_election() {
    let mut store = ElectionStore::new();
    store.grant_lease(1);

    let mut a = ElectionSession::new(name(), 1);
    a.campaign_start(&mut store, &b"v1".to_vec()).unwrap();
    let ra = a.campaign_poll(&store).unwrap().unwrap();
    let rev0 = ra.leader().unwrap().rev();

    a.proclaim(&mut store, &b"v2".to_vec()).unwrap();
    assert_eq!(a.state(), SessionState::Leading);

    let led = store.leader(&name()).unwrap();
    let kv = led.kv().unwrap();
    // Same holding (same creation revision), new value.
    assert_eq!(kv.create_revision(), rev0);
    assert_eq!(kv.value(), b"v2");
    assert!(kv.mod_revision() > kv.create_revision());
}

#[test]
fn elections_with_different_names_are_independent() {
    let mut store = ElectionStore::new();
    store.grant_lease(1);
    store.grant_lease(2);

    let mut a = ElectionSession::new(b"svc-one".to_vec(), 1);
    let mut b = ElectionSession::new(b"svc-two".to_vec(), 2);
    a.campaign_start(&mut store, &b"a".to_vec()).unwrap();
    b.campaign_start(&mut store, &b"b".to_vec()).unwrap();

    // Both lead: they compete in different elections.
    assert!(a.campaign_poll(&store).unwrap().is_some());
    assert!(b.campaign_poll(&store).unwrap().is_some());
    assert_eq!(
        store.leader(&b"svc-one".to_vec()).unwrap().kv().unwrap().value(),
        b"a"
    );
    assert_eq!(
        store.leader(&b"svc-two".to_vec()).unwrap().kv().unwrap().value(),
        b"b"
    );
}

#[test]
fn session_is_reusable_after_resign() {
    let mut store = ElectionStore::new();
    store.grant_lease(1);

    let mut a = ElectionSession::new(name(), 1);
    a.campaign_start(&mut store, &b"first".to_vec()).unwrap();
    let r1 = a.campaign_poll(&store).unwrap().unwrap();
    let rev1 = r1.leader().unwrap().rev();
    a.resign(&mut store).unwrap();
    assert_eq!(a.state(), SessionState::Idle);

    // The same session campaigns again and wins a fresh holding.
    a.campaign_start(&mut store, &b"second".to_vec()).unwrap();
    let r2 = a.campaign_poll(&store).unwrap().unwrap();
    assert!(r2.leader().unwrap().rev() > rev1);
    assert_eq!(store.leader(&name()).unwrap().kv().unwrap().value(), b"second");
}
