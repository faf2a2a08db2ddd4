//! Messages of paired conversations on the wire.
use kchat_mls::messages::apq_delivery::{ApqCommitPair, ApqDeliveryOrder, ApqMessage, ApqOrderingError};
use kchat_mls::messages::delivery_service::SessionSide;
use kchat_mls::tls::TlsError;
use kchat_mls::wire::{tls_deserialize_exact, tls_serialize_detached};

#[test]
fn apq_message_round_trips_t_payload() {
    let msg = ApqMessage::new_t(b"t-payload".to_vec());
    let bytes = tls_serialize_detached(&msg).expect("serialize");
    let decoded = tls_deserialize_exact::<ApqMessage>(&bytes).expect("deserialize");
    assert_eq!(decoded, msg);
    assert_eq!(decoded.session_side, SessionSide::T);
}

#[test]
fn apq_message_round_trips_pq_payload() {
    let msg = ApqMessage::new_pq(b"pq-payload".to_vec());
    let bytes = tls_serialize_detached(&msg).expect("serialize");
    let decoded = tls_deserialize_exact::<ApqMessage>(&bytes).expect("deserialize");
    assert_eq!(decoded, msg);
    assert_eq!(decoded.session_side, SessionSide::Pq);
}

#[test]
fn apq_message_rejects_invalid_session_side_byte() {
    let bogus = [0xFFu8, 0x00];
    let err = tls_deserialize_exact::<ApqMessage>(&bogus).expect_err("must reject");
    assert!(matches!(err, TlsError::DecodingError(_)));
}

#[test]
fn apq_commit_pair_round_trips() {
    let pair = ApqCommitPair::new(42, b"pq-bytes".to_vec(), b"t-bytes".to_vec());
    let bytes = tls_serialize_detached(&pair).expect("serialize");
    let decoded = tls_deserialize_exact::<ApqCommitPair>(&bytes).expect("deserialize");
    assert_eq!(decoded, pair);
    assert_eq!(decoded.pair_id, 42);
    assert_eq!(decoded.declared_order, ApqDeliveryOrder::PqFirst);
    decoded
        .validate_order()
        .expect("freshly-constructed pair must validate");
}

#[test]
fn apq_commit_pair_validate_rejects_t_first_ordering() {
    let mut pair = ApqCommitPair::new(7, b"pq".to_vec(), b"t".to_vec());
    pair.declared_order = ApqDeliveryOrder::TFirst;
    let err = pair.validate_order().expect_err("must reject");
    assert_eq!(
        err,
        ApqOrderingError::FullCommitNotPqFirst {
            declared: ApqDeliveryOrder::TFirst
        }
    );
}

#[test]
fn apq_commit_pair_validate_rejects_independent_ordering() {
    let mut pair = ApqCommitPair::new(8, b"pq".to_vec(), b"t".to_vec());
    pair.declared_order = ApqDeliveryOrder::Independent;
    let err = pair.validate_order().expect_err("must reject");
    assert_eq!(
        err,
        ApqOrderingError::FullCommitNotPqFirst {
            declared: ApqDeliveryOrder::Independent
        }
    );
}

#[test]
fn apq_commit_pair_validate_rejects_swapped_session_sides() {
    let mut pair = ApqCommitPair::new(9, b"pq".to_vec(), b"t".to_vec());
    pair.pq_half.session_side = SessionSide::T;
    pair.t_half.session_side = SessionSide::Pq;
    let err = pair.validate_order().expect_err("must reject");
    assert!(matches!(err, ApqOrderingError::FullCommitNotPqFirst { .. }));
}

#[test]
fn apq_delivery_order_byte_round_trip() {
    for order in [
        ApqDeliveryOrder::PqFirst,
        ApqDeliveryOrder::TFirst,
        ApqDeliveryOrder::Independent,
    ] {
        let byte = order.as_byte();
        let back = ApqDeliveryOrder::from_byte(byte).expect("decode");
        assert_eq!(back, order);
    }
}

#[test]
fn apq_delivery_order_rejects_unknown_byte() {
    let err = ApqDeliveryOrder::from_byte(99).expect_err("must reject");
    assert_eq!(err, ApqOrderingError::InvalidOrder { value: 99 });
}

#[test]
fn apq_delivery_order_tls_round_trip() {
    for order in [
        ApqDeliveryOrder::PqFirst,
        ApqDeliveryOrder::TFirst,
        ApqDeliveryOrder::Independent,
    ] {
        let bytes = tls_serialize_detached(&order).expect("serialize");
        let back = tls_deserialize_exact::<ApqDeliveryOrder>(&bytes).expect("deserialize");
        assert_eq!(back, order);
    }
}
