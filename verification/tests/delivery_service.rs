//! Queues of messages, and the order of FULL commits.
use kchat_mls::ciphersuite::security_mode::SecurityMode;
use kchat_mls::messages::delivery_service::{
    ApqDeliveryEnvelope, DeliveryError, DeliveryService, SessionSide,
};
use kchat_mls::mls::{MlsMessageOut, Welcome};
use kchat_mls::types::{Ciphersuite, GroupId};

fn dummy_message(cs_id: u16) -> MlsMessageOut {
    let cs = Ciphersuite::from_codepoint(cs_id)
        .unwrap_or(Ciphersuite::MLS_128_DHKEMX25519_AES128GCM_SHA256_Ed25519);
    let welcome = Welcome::new(cs, Vec::new(), Vec::new());
    let mut bytes = Vec::new();
    welcome.tls_serialize(&mut bytes).expect("serialize");
    MlsMessageOut { bytes }
}

fn gid(byte: u8) -> GroupId {
    GroupId::from_slice(&[byte; 16])
}

#[test]
fn enqueue_then_deliver_round_trips_a_simple_message() {
    let mut svc = DeliveryService::new();
    let g = gid(1);
    let env = ApqDeliveryEnvelope::new_simple(g.clone(), SessionSide::T, dummy_message(0x0001));
    svc.enqueue(env).expect("enqueue");
    assert_eq!(svc.pending_count(&g), 1);
    let out = svc.deliver_next(&g).expect("deliver");
    assert_eq!(out.session_side, SessionSide::T);
    assert!(svc.deliver_next(&g).is_none());
    assert!(svc.is_empty());
}

#[test]
fn deliver_all_returns_envelopes_in_fifo_order() {
    let mut svc = DeliveryService::new();
    let g = gid(2);
    for i in 0..5 {
        let cs_id = 0x0001 + (i as u16 % 3);
        let env =
            ApqDeliveryEnvelope::new_simple(g.clone(), SessionSide::T, dummy_message(cs_id));
        svc.enqueue(env).expect("enqueue");
    }
    let drained = svc.deliver_all(&g);
    assert_eq!(drained.len(), 5);
    assert_eq!(svc.pending_count(&g), 0);
}

#[test]
fn full_commit_t_before_pq_is_rejected_with_pq_half_missing() {
    let mut svc = DeliveryService::new();
    let g = gid(3);
    let t_half = ApqDeliveryEnvelope::new_full_commit_half(
        g.clone(),
        SessionSide::T,
        42,
        dummy_message(0x0001),
    );
    let err = svc.enqueue(t_half).expect_err("must reject T-before-PQ");
    assert!(matches!(err, DeliveryError::PqHalfMissing { pair_id: 42 }));
    assert!(svc.is_empty(), "no envelope must be queued on rejection");
}

#[test]
fn full_commit_pq_then_t_succeeds_and_clears_pending_pair() {
    let mut svc = DeliveryService::new();
    let g = gid(4);
    let pq = ApqDeliveryEnvelope::new_full_commit_half(
        g.clone(),
        SessionSide::Pq,
        7,
        dummy_message(0x0001),
    );
    let t = ApqDeliveryEnvelope::new_full_commit_half(
        g.clone(),
        SessionSide::T,
        7,
        dummy_message(0x0001),
    );
    svc.enqueue(pq).expect("PQ first");
    assert_eq!(svc.pending_full_commit_pairs(&g), 1);
    svc.enqueue(t).expect("T second");
    assert_eq!(
        svc.pending_full_commit_pairs(&g),
        0,
        "pair completes once both halves are enqueued"
    );
    assert_eq!(svc.pending_count(&g), 2);
}

#[test]
fn duplicate_pq_half_is_rejected() {
    let mut svc = DeliveryService::new();
    let g = gid(5);
    let pq1 = ApqDeliveryEnvelope::new_full_commit_half(
        g.clone(),
        SessionSide::Pq,
        10,
        dummy_message(0x0001),
    );
    let pq2 = ApqDeliveryEnvelope::new_full_commit_half(
        g.clone(),
        SessionSide::Pq,
        10,
        dummy_message(0x0001),
    );
    svc.enqueue(pq1).expect("first PQ ok");
    let err = svc.enqueue(pq2).expect_err("duplicate must fail");
    assert!(matches!(
        err,
        DeliveryError::DuplicatePqHalf { pair_id: 10 }
    ));
}

#[test]
fn full_commit_envelope_without_pair_id_is_rejected() {
    let mut svc = DeliveryService::new();
    let g = gid(6);
    let bad = ApqDeliveryEnvelope {
        group_id: g.clone(),
        session_side: SessionSide::Pq,
        is_full_commit_pair: true,
        pair_id: None,
        message: dummy_message(0x0001),
    };
    let err = svc.enqueue(bad).expect_err("must reject");
    assert!(matches!(err, DeliveryError::FullCommitWithoutPairId));
}

#[test]
fn multiple_groups_are_isolated() {
    let mut svc = DeliveryService::new();
    let g1 = gid(11);
    let g2 = gid(12);
    for _ in 0..3 {
        svc.enqueue(ApqDeliveryEnvelope::new_simple(
            g1.clone(),
            SessionSide::T,
            dummy_message(0x0001),
        ))
        .expect("g1");
    }
    for _ in 0..2 {
        svc.enqueue(ApqDeliveryEnvelope::new_simple(
            g2.clone(),
            SessionSide::T,
            dummy_message(0x0001),
        ))
        .expect("g2");
    }
    assert_eq!(svc.pending_count(&g1), 3);
    assert_eq!(svc.pending_count(&g2), 2);
    assert_eq!(svc.total_pending(), 5);

    let drained = svc.deliver_all(&g1);
    assert_eq!(drained.len(), 3);
    assert_eq!(svc.pending_count(&g1), 0);
    assert_eq!(svc.pending_count(&g2), 2);
}

#[test]
fn empty_queue_returns_none_and_zero() {
    let svc = DeliveryService::new();
    let g = gid(99);
    assert_eq!(svc.pending_count(&g), 0);
    assert_eq!(svc.pending_full_commit_pairs(&g), 0);
    assert!(svc.is_empty());

    let mut svc = svc;
    assert!(svc.deliver_next(&g).is_none());
}

#[test]
fn full_commit_pair_ordering_holds_under_interleaved_groups() {
    let mut svc = DeliveryService::new();
    let g1 = gid(20);
    let g2 = gid(21);

    svc.enqueue(ApqDeliveryEnvelope::new_full_commit_half(
        g1.clone(),
        SessionSide::Pq,
        1,
        dummy_message(0x0001),
    ))
    .expect("g1 PQ");

    let err = svc
        .enqueue(ApqDeliveryEnvelope::new_full_commit_half(
            g2.clone(),
            SessionSide::T,
            1,
            dummy_message(0x0001),
        ))
        .expect_err("g2 T-before-PQ must fail across groups");
    assert!(matches!(err, DeliveryError::PqHalfMissing { pair_id: 1 }));

    svc.enqueue(ApqDeliveryEnvelope::new_full_commit_half(
        g1.clone(),
        SessionSide::T,
        1,
        dummy_message(0x0001),
    ))
    .expect("g1 T after PQ ok");

    assert_eq!(svc.pending_full_commit_pairs(&g1), 0);
    assert_eq!(svc.pending_full_commit_pairs(&g2), 0);
}

#[test]
fn session_side_round_trip_value_is_observable() {
    let mut svc = DeliveryService::new();
    let g = gid(30);
    svc.enqueue(ApqDeliveryEnvelope::new_simple(
        g.clone(),
        SessionSide::Pq,
        dummy_message(0x0001),
    ))
    .expect("enqueue");
    let out = svc.deliver_next(&g).unwrap();
    assert_eq!(out.session_side, SessionSide::Pq);
    let _ = SecurityMode::Classical;
}
