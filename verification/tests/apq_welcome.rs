//! The welcome into a paired conversation.
use kchat_mls::ciphersuite::security_mode::SecurityMode;
use kchat_mls::extensions::apq_info::ApqInfo;
use kchat_mls::messages::apq_welcome::{ApqWelcome, ApqWelcomeError};
use kchat_mls::mls::{PreSharedKeyId, Welcome};
use kchat_mls::tls::TlsError;
use kchat_mls::types::{Ciphersuite, GroupId};
use kchat_mls::wire::{tls_deserialize_exact, tls_serialize_detached};

fn classical_cs() -> Ciphersuite {
    Ciphersuite::MLS_128_DHKEMX25519_AES128GCM_SHA256_Ed25519
}

fn xwing_cs() -> Ciphersuite {
    Ciphersuite::MLS_256_XWING_CHACHA20POLY1305_SHA256_Ed25519
}

fn dummy_welcome(cs: Ciphersuite) -> Welcome {
    Welcome::new(cs, Vec::new(), b"encrypted_group_info".to_vec())
}

fn pq_apq_info() -> ApqInfo {
    ApqInfo::new(
        GroupId::from_slice(&[1; 16]),
        GroupId::from_slice(&[2; 16]),
        5,
        5,
        classical_cs(),
        xwing_cs(),
        SecurityMode::PqConfidentiality,
    )
}

fn dummy_psk_id() -> PreSharedKeyId {
    PreSharedKeyId::external(b"apq_psk_id".to_vec(), vec![0u8; 32])
}

#[test]
fn apq_bootstrap_validate_ok() {
    let aw = ApqWelcome::new_apq(
        dummy_welcome(classical_cs()),
        dummy_welcome(xwing_cs()),
        pq_apq_info(),
        dummy_psk_id(),
    );
    aw.validate().expect("apq bootstrap valid");
}

#[test]
fn direct_pq_bootstrap_validate_ok() {
    let aw = ApqWelcome::new_direct_pq(dummy_welcome(xwing_cs()), pq_apq_info());
    aw.validate().expect("direct pq bootstrap valid");
}

#[test]
fn pq_ciphersuite_mismatch_rejected() {
    let mut aw = ApqWelcome::new_apq(
        dummy_welcome(classical_cs()),
        dummy_welcome(classical_cs()),
        pq_apq_info(),
        dummy_psk_id(),
    );
    aw.apq_info.pq_ciphersuite = xwing_cs();
    assert_eq!(aw.validate(), Err(ApqWelcomeError::PqCiphersuiteMismatch));
}

#[test]
fn t_ciphersuite_mismatch_rejected() {
    let aw = ApqWelcome::new_apq(
        dummy_welcome(Ciphersuite::MLS_128_DHKEMX25519_CHACHA20POLY1305_SHA256_Ed25519),
        dummy_welcome(xwing_cs()),
        pq_apq_info(),
        dummy_psk_id(),
    );
    assert_eq!(aw.validate(), Err(ApqWelcomeError::TCiphersuiteMismatch));
}

#[test]
fn apq_bootstrap_without_psk_id_rejected() {
    let aw = ApqWelcome {
        t_welcome: Some(dummy_welcome(classical_cs())),
        pq_welcome: dummy_welcome(xwing_cs()),
        apq_info: pq_apq_info(),
        initial_apq_psk_id: None,
    };
    assert_eq!(aw.validate(), Err(ApqWelcomeError::MissingPskId));
}

#[test]
fn invalid_apq_info_propagates_through_validate() {
    let mut info = pq_apq_info();
    info.t_group_id = info.pq_group_id.clone();
    let aw = ApqWelcome::new_apq(
        dummy_welcome(classical_cs()),
        dummy_welcome(xwing_cs()),
        info,
        dummy_psk_id(),
    );
    match aw.validate() {
        Err(ApqWelcomeError::InvalidApqInfo(_)) => {}
        other => panic!("expected InvalidApqInfo, got {other:?}"),
    }
}

#[test]
fn extract_group_ids_returns_both() {
    let aw = ApqWelcome::new_apq(
        dummy_welcome(classical_cs()),
        dummy_welcome(xwing_cs()),
        pq_apq_info(),
        dummy_psk_id(),
    );
    let (t_id, pq_id) = aw.extract_group_ids();
    assert_eq!(t_id, &GroupId::from_slice(&[1; 16]));
    assert_eq!(pq_id, &GroupId::from_slice(&[2; 16]));
}

#[test]
fn roundtrip_apq_bootstrap() {
    let aw = ApqWelcome::new_apq(
        dummy_welcome(classical_cs()),
        dummy_welcome(xwing_cs()),
        pq_apq_info(),
        dummy_psk_id(),
    );
    let bytes = tls_serialize_detached(&aw).expect("serialize");
    let decoded = tls_deserialize_exact::<ApqWelcome>(&bytes).expect("deserialize");
    assert_eq!(aw, decoded);
}

#[test]
fn roundtrip_direct_pq_bootstrap() {
    let aw = ApqWelcome::new_direct_pq(dummy_welcome(xwing_cs()), pq_apq_info());
    let bytes = tls_serialize_detached(&aw).expect("serialize");
    let decoded = tls_deserialize_exact::<ApqWelcome>(&bytes).expect("deserialize");
    assert_eq!(aw, decoded);
}

#[test]
fn invalid_t_welcome_presence_byte_rejected() {
    let aw = ApqWelcome::new_direct_pq(dummy_welcome(xwing_cs()), pq_apq_info());
    let mut bytes = tls_serialize_detached(&aw).expect("serialize");
    bytes[0] = 0x07;
    match tls_deserialize_exact::<ApqWelcome>(&bytes) {
        Err(TlsError::DecodingError(msg)) => {
            assert!(msg.contains("t_welcome presence"));
        }
        other => panic!("expected DecodingError, got {other:?}"),
    }
}
