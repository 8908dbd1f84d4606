//! Tests of the plain data types: option records, responses, the
//! fencing token, and the maintenance records.

use elector::election::CampaignOptions;
use elector::election::CampaignResponse;
use elector::election::LeaderKey;
use elector::election::LeaderOptions;
use elector::election::LeaderResponse;
use elector::election::ProclaimOptions;
use elector::election::ProclaimResponse;
use elector::election::ResignOptions;
use elector::election::ResignResponse;
use elector::errors::Error;
use elector::header::KeyValue;
use elector::header::ResponseHeader;
use elector::maintenance::AlarmAction;
use elector::maintenance::AlarmMember;
use elector::maintenance::AlarmOptions;
use elector::maintenance::AlarmResponse;
use elector::maintenance::AlarmType;
use elector::maintenance::DefragmentResponse;
use elector::maintenance::HashKvOptions;
use elector::maintenance::HashKvResponse;
use elector::maintenance::HashResponse;
use elector::maintenance::SnapshotResponse;
use elector::maintenance::StatusResponse;

#[test]
fn campaign_options_builder() {
    let opts = CampaignOptions::new()
        .with_name(b"svc".to_vec())
        .with_lease(7)
        .with_value(b"v".to_vec());
    assert_eq!(opts.name, b"svc".to_vec());
    assert_eq!(opts.lease, 7);
    assert_eq!(opts.value, b"v".to_vec());
}

#[test]
fn proclaim_and_resign_options_carry_the_leader() {
    let lk = LeaderKey::new(b"svc".to_vec(), b"svc/k".to_vec(), 5, 7);
    let p = ProclaimOptions::new()
        .with_value(b"v2".to_vec())
        .with_leader(lk.duplicate());
    assert_eq!(p.value, b"v2".to_vec());
    assert_eq!(p.leader.as_ref().unwrap().rev(), 5);

    let r = ResignOptions::new().with_leader(lk);
    assert_eq!(r.leader.as_ref().unwrap().lease(), 7);

    let l = LeaderOptions::new().with_name(b"svc".to_vec());
    assert_eq!(l.name, b"svc".to_vec());
}

#[test]
fn leader_key_accessors_and_builders() {
    let lk = LeaderKey::new(Vec::new(), Vec::new(), 0, 0)
        .with_name(b"svc".to_vec())
        .with_key(b"svc/abc".to_vec())
        .with_rev(42)
        .with_lease(9);
    assert_eq!(lk.name(), b"svc");
    assert_eq!(lk.key(), b"svc/abc");
    assert_eq!(lk.rev(), 42);
    assert_eq!(lk.lease(), 9);
    assert_eq!(lk.name_str().unwrap(), "svc");
    assert_eq!(lk.key_str().unwrap(), "svc/abc");
}

#[test]
fn leader_key_strings_reject_invalid_utf8() {
    let lk = LeaderKey::new(vec![0xff, 0xfe], vec![0x80], 1, 1);
    assert_eq!(lk.name_str().unwrap_err(), Error::InvalidUtf8);
    assert_eq!(lk.key_str().unwrap_err(), Error::InvalidUtf8);
}

#[test]
fn campaign_response_take_leaves_nothing() {
    let h = ResponseHeader::new(1, 2, 3, 4);
    let lk = LeaderKey::new(b"svc".to_vec(), b"svc/k".to_vec(), 3, 9);
    let mut resp = CampaignResponse::new(Some(h), Some(lk));

    assert_eq!(resp.header().unwrap().revision(), 3);
    assert_eq!(resp.leader().unwrap().rev(), 3);

    let taken = resp.take_header().unwrap();
    assert_eq!(taken.cluster_id(), 1);
    assert!(resp.header().is_none());

    let lk2 = resp.take_leader().unwrap();
    assert_eq!(lk2.lease(), 9);
    assert!(resp.leader().is_none());
}

#[test]
fn leader_response_exposes_the_kv() {
    let kv = KeyValue::new(b"svc/k".to_vec(), 5, 8, 2, b"payload".to_vec(), 7);
    assert_eq!(kv.key(), b"svc/k");
    assert_eq!(kv.value(), b"payload");
    assert_eq!(kv.create_revision(), 5);
    assert_eq!(kv.mod_revision(), 8);
    assert_eq!(kv.version(), 2);
    assert_eq!(kv.lease(), 7);

    let mut resp = LeaderResponse::new(Some(ResponseHeader::new(0, 0, 8, 1)), Some(kv));
    assert_eq!(resp.kv().unwrap().value(), b"payload");
    let kv2 = resp.take_kv().unwrap();
    assert_eq!(kv2.mod_revision(), 8);
    assert!(resp.kv().is_none());
    assert_eq!(resp.take_header().unwrap().raft_term(), 1);
}

#[test]
fn proclaim_and_resign_responses_carry_headers() {
    let mut p = ProclaimResponse::new(Some(ResponseHeader::new(0, 0, 11, 0)));
    assert_eq!(p.header().unwrap().revision(), 11);
    assert_eq!(p.take_header().unwrap().revision(), 11);
    assert!(p.header().is_none());

    let mut r = ResignResponse::new(Some(ResponseHeader::new(0, 0, 12, 0)));
    assert_eq!(r.header().unwrap().revision(), 12);
    assert_eq!(r.take_header().unwrap().revision(), 12);
    assert!(r.header().is_none());
}

#[test]
fn alarm_options_and_members() {
    let mut opts = AlarmOptions::new();
    assert_eq!(opts.action, AlarmAction::Get);
    assert_eq!(opts.alarm, AlarmType::NoAlarm);
    assert_eq!(opts.member_id, 0);

    opts.with_member(17);
    let opts = opts.with_action_and_type(AlarmAction::Activate, AlarmType::Nospace);
    assert_eq!(opts.action, AlarmAction::Activate);
    assert_eq!(opts.alarm, AlarmType::Nospace);
    assert_eq!(opts.member_id, 17);

    let m = AlarmMember::new(17, AlarmType::Nospace);
    let mut resp = AlarmResponse::new(Some(ResponseHeader::new(0, 0, 1, 0)), vec![m]);
    assert_eq!(resp.alarms().len(), 1);
    assert_eq!(resp.alarms()[0].member_id, 17);
    assert_eq!(resp.alarms()[0].alarm, AlarmType::Nospace);
    assert!(resp.take_header().is_some());
    assert!(resp.header().is_none());
}

#[test]
fn status_response_accessors() {
    let mut resp = StatusResponse::new(
        Some(ResponseHeader::new(1, 2, 3, 4)),
        String::from("3.5.0"),
        4096,
        2,
        100,
        4,
        99,
        vec![String::from("deadline exceeded")],
        2048,
        true,
    );
    assert_eq!(resp.version(), "3.5.0");
    assert_eq!(resp.db_size(), 4096);
    assert_eq!(resp.leader(), 2);
    assert_eq!(resp.raft_index(), 100);
    assert_eq!(resp.raft_term(), 4);
    assert_eq!(resp.raft_applied_index(), 99);
    assert_eq!(resp.errors().len(), 1);
    assert_eq!(resp.errors()[0], "deadline exceeded");
    assert_eq!(resp.raft_used_db_size(), 2048);
    assert!(resp.is_learner());
    assert_eq!(resp.take_header().unwrap().member_id(), 2);
    assert!(resp.header().is_none());
}

#[test]
fn hash_and_defragment_responses() {
    let mut d = DefragmentResponse::new(Some(ResponseHeader::new(0, 0, 5, 0)));
    assert_eq!(d.take_header().unwrap().revision(), 5);
    assert!(d.header().is_none());

    let mut h = HashResponse::new(Some(ResponseHeader::new(0, 0, 6, 0)), 0xdead_beef);
    assert_eq!(h.hash(), 0xdead_beef);
    assert_eq!(h.take_header().unwrap().revision(), 6);

    let opts = HashKvOptions::new(33);
    assert_eq!(opts.revision, 33);
    let mut hkv = HashKvResponse::new(Some(ResponseHeader::new(0, 0, 7, 0)), 0xfeed, 30);
    assert_eq!(hkv.hash(), 0xfeed);
    assert_eq!(hkv.compact_version(), 30);
    assert_eq!(hkv.take_header().unwrap().revision(), 7);
}

#[test]
fn snapshot_response_chunks() {
    let mut s = SnapshotResponse::new(
        Some(ResponseHeader::new(0, 0, 8, 0)),
        1024,
        vec![1, 2, 3],
    );
    assert_eq!(s.remaining_bytes(), 1024);
    assert_eq!(s.blob(), &[1, 2, 3]);
    assert_eq!(s.take_header().unwrap().revision(), 8);
    assert!(s.header().is_none());
}

#[test]
fn candidate_keys_embed_name_and_lease() {
    let k1 = elector::store::make_candidate_key(&b"svc".to_vec(), 1);
    assert_eq!(k1, b"svc/\x00\x00\x00\x00\x00\x00\x00\x01".to_vec());
    // Distinct leases give distinct ordered keys under the same name.
    let k2 = elector::store::make_candidate_key(&b"svc".to_vec(), 2);
    assert_ne!(k1, k2);
    // A negative lease still encodes to exactly eight suffix bytes.
    let k3 = elector::store::make_candidate_key(&b"svc".to_vec(), -1);
    assert_eq!(k3.len(), 3 + 1 + 8);
    assert_eq!(&k3[4..], &[0xff; 8]);
}
