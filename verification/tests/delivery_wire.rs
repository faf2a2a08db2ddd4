//! Envelopes between clients and a delivery service.
use kchat_mls::delivery::apq::ApqEnvelope;
use kchat_mls::messages::apq_delivery::{ApqCommitPair, ApqMessage};
use kchat_mls::tls::TlsError;
use kchat_mls::wire::{tls_deserialize_exact, tls_serialize_detached};

#[test]
fn apq_envelope_round_trips_single_message() {
    let env = ApqEnvelope::Message(ApqMessage::new_t(b"hello".to_vec()));
    let bytes = tls_serialize_detached(&env).expect("serialize");
    let back = tls_deserialize_exact::<ApqEnvelope>(&bytes).expect("deserialize");
    assert_eq!(back, env);
}

#[test]
fn apq_envelope_round_trips_commit_pair() {
    let env = ApqEnvelope::CommitPair(ApqCommitPair::new(
        123,
        b"pq-half".to_vec(),
        b"t-half".to_vec(),
    ));
    let bytes = tls_serialize_detached(&env).expect("serialize");
    let back = tls_deserialize_exact::<ApqEnvelope>(&bytes).expect("deserialize");
    assert_eq!(back, env);
    if let ApqEnvelope::CommitPair(pair) = back {
        pair.validate_order().expect("validate");
    } else {
        panic!("expected CommitPair");
    }
}

#[test]
fn apq_envelope_rejects_unknown_tag() {
    let bogus = [0xFFu8];
    let err = tls_deserialize_exact::<ApqEnvelope>(bogus.as_slice()).expect_err("must reject");
    assert!(matches!(err, TlsError::DecodingError(_)));
}
