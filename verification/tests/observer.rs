//! Scenario tests for the leadership observer: exactly-once delivery,
//! filtering, and resumption after transport interruptions.

use elector::observe::Observer;
use elector::observe::WatchEvent;
use elector::session::ElectionSession;
use elector::store::ElectionStore;

fn name() -> Vec<u8> {
    b"svc".to_vec()
}

#[test]
fn observe_delivers_each_leadership_value_exactly_once() {
    let mut store = ElectionStore::new();
    store.grant_lease(1);
    let mut obs = Observer::new(name());

    // No campaigns yet: nothing to deliver.
    assert!(obs.resync(&store).is_none());

    // A single successful campaign with value v1: exactly one event.
    let mut a = ElectionSession::new(name(), 1);
    a.campaign_start(&mut store, &b"v1".to_vec()).unwrap();
    assert!(a.campaign_poll(&store).unwrap().is_some());

    let ev1 = obs.resync(&store).expect("one event for v1");
    assert_eq!(ev1.value, b"v1".to_vec());
    // Never duplicated.
    assert!(obs.resync(&store).is_none());

    // A proclaim with v2: exactly one more event, v1 never re-delivered.
    a.proclaim(&mut store, &b"v2".to_vec()).unwrap();
    let ev2 = obs.resync(&store).expect("one event for v2");
    assert_eq!(ev2.value, b"v2".to_vec());
    assert!(ev2.header.revision() > ev1.header.revision());
    assert!(obs.resync(&store).is_none());
}

#[test]
fn observe_resumes_strictly_after_last_delivery() {
    let mut store = ElectionStore::new();
    store.grant_lease(1);
    let mut a = ElectionSession::new(name(), 1);
    a.campaign_start(&mut store, &b"v1".to_vec()).unwrap();
    assert!(a.campaign_poll(&store).unwrap().is_some());

    let mut obs = Observer::new(name());
    let ev1 = obs.resync(&store).unwrap();
    let delivered = ev1.header.revision();

    // Mid-stream transport interruption.
    obs.on_interrupt();

    // Revisions advance while the observer is disconnected.
    a.proclaim(&mut store, &b"v2".to_vec()).unwrap();
    a.proclaim(&mut store, &b"v3".to_vec()).unwrap();

    // The resumed stream starts strictly after the last delivered
    // revision, does not re-deliver v1, and does not go quiet.
    let ev = obs.resync(&store).expect("the change is not skipped");
    assert!(ev.header.revision() > delivered);
    assert_eq!(ev.value, b"v3".to_vec());
    assert!(obs.resync(&store).is_none());
}

#[test]
fn observe_sees_leadership_handover() {
    let mut store = ElectionStore::new();
    store.grant_lease(1);
    store.grant_lease(2);
    let mut a = ElectionSession::new(name(), 1);
    let mut b = ElectionSession::new(name(), 2);
    a.campaign_start(&mut store, &b"a".to_vec()).unwrap();
    b.campaign_start(&mut store, &b"b".to_vec()).unwrap();
    assert!(a.campaign_poll(&store).unwrap().is_some());

    let mut obs = Observer::new(name());
    let ev_a = obs.resync(&store).unwrap();
    assert_eq!(ev_a.value, b"a".to_vec());

    a.resign(&mut store).unwrap();
    assert!(b.campaign_poll(&store).unwrap().is_some());

    let ev_b = obs.resync(&store).expect("the new leader is delivered");
    assert_eq!(ev_b.value, b"b".to_vec());
    assert!(ev_b.header.revision() > ev_a.header.revision());
}

#[test]
fn watch_events_are_filtered_and_deduplicated() {
    let mut store = ElectionStore::new();
    store.grant_lease(1);
    let mut a = ElectionSession::new(name(), 1);
    a.campaign_start(&mut store, &b"v1".to_vec()).unwrap();
    let resp = a.campaign_poll(&store).unwrap().unwrap();
    let leader_key = resp.leader().unwrap().key().to_vec();

    let mut obs = Observer::new(name());
    let ev1 = obs.resync(&store).unwrap();
    let rev1 = ev1.header.revision();

    // A losing candidacy's key appearing is irrelevant: filtered out.
    let other = WatchEvent {
        key: b"svc/other".to_vec(),
        value: b"x".to_vec(),
        revision: rev1 + 5,
        is_delete: false,
    };
    assert!(obs.on_event(&other).is_none());

    // A stale or already-seen event for the leader key is suppressed.
    let stale = WatchEvent {
        key: leader_key.clone(),
        value: b"v1".to_vec(),
        revision: rev1,
        is_delete: false,
    };
    assert!(obs.on_event(&stale).is_none());

    // A fresh update of the leader key is delivered.
    let fresh = WatchEvent {
        key: leader_key.clone(),
        value: b"v2".to_vec(),
        revision: rev1 + 1,
        is_delete: false,
    };
    let ev2 = obs.on_event(&fresh).expect("fresh update delivered");
    assert_eq!(ev2.value, b"v2".to_vec());
    assert_eq!(ev2.header.revision(), rev1 + 1);
    assert_eq!(obs.last_revision(), rev1 + 1);

    // Deletion of the leader key delivers nothing and forces a resync.
    let gone = WatchEvent {
        key: leader_key,
        value: Vec::new(),
        revision: rev1 + 2,
        is_delete: true,
    };
    assert!(obs.on_event(&gone).is_none());
    // The leader state is re-resolved; nothing older is re-delivered.
    assert!(obs.resync(&store).is_none());
}

#[test]
fn observer_reports_its_election_name() {
    let obs = Observer::new(b"tenants".to_vec());
    assert_eq!(obs.name(), b"tenants");
    assert_eq!(obs.last_revision(), 0);
}
