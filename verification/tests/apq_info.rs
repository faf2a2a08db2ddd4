//! The record that links two sessions.
use kchat_mls::ciphersuite::security_mode::SecurityMode;
use kchat_mls::extensions::apq_info::{ApqInfo, ApqInfoError};
use kchat_mls::tls::TlsError;
use kchat_mls::types::{Ciphersuite, GroupId};
use kchat_mls::wire::{tls_deserialize_exact, tls_serialize_detached};

fn group_id(tag: u8) -> GroupId {
    GroupId::from_slice(&[tag; 16])
}

fn pq_apq_info() -> ApqInfo {
    ApqInfo::new(
        group_id(0xAA),
        group_id(0xBB),
        5,
        5,
        Ciphersuite::MLS_128_DHKEMX25519_AES128GCM_SHA256_Ed25519,
        Ciphersuite::MLS_256_XWING_CHACHA20POLY1305_SHA256_Ed25519,
        SecurityMode::PqConfidentiality,
    )
}

#[test]
fn roundtrip_pq_confidentiality() {
    let info = pq_apq_info();
    let bytes = tls_serialize_detached(&info).expect("serialize");
    let decoded = tls_deserialize_exact::<ApqInfo>(&bytes).expect("deserialize");
    assert_eq!(info, decoded);
}

#[test]
fn validate_accepts_pq_confidentiality() {
    let info = pq_apq_info();
    info.validate().expect("valid PQ_CONFIDENTIALITY APQInfo");
}

#[test]
fn validate_rejects_classical_mode() {
    let mut info = pq_apq_info();
    info.mode = SecurityMode::Classical;
    assert_eq!(info.validate(), Err(ApqInfoError::ClassicalMode));
}

#[test]
fn validate_rejects_duplicate_group_ids() {
    let mut info = pq_apq_info();
    info.pq_group_id = info.t_group_id.clone();
    assert_eq!(info.validate(), Err(ApqInfoError::DuplicateGroupIds));
}

#[test]
fn validate_rejects_epoch_drift() {
    let mut info = pq_apq_info();
    info.t_epoch = 10;
    info.pq_epoch = 5;
    assert_eq!(
        info.validate(),
        Err(ApqInfoError::EpochDrift { drift: 5, max: 1 })
    );
}

#[test]
fn validate_accepts_drift_within_window() {
    let mut info = pq_apq_info();
    info.t_epoch = 5;
    info.pq_epoch = 6;
    info.validate().expect("drift of 1 is permitted");
}

#[test]
fn validate_rejects_classical_pq_ciphersuite() {
    let mut info = pq_apq_info();
    info.pq_ciphersuite = Ciphersuite::MLS_128_DHKEMX25519_AES128GCM_SHA256_Ed25519;
    assert_eq!(
        info.validate(),
        Err(ApqInfoError::ModeMismatch {
            mode: SecurityMode::PqConfidentiality,
        })
    );
}

#[test]
fn matches_groups_accepts_correct_ids() {
    let info = pq_apq_info();
    info.matches_groups(&group_id(0xAA), &group_id(0xBB))
        .expect("matching ids accepted");
}

#[test]
fn matches_groups_rejects_wrong_t_id() {
    let info = pq_apq_info();
    assert_eq!(
        info.matches_groups(&group_id(0xCC), &group_id(0xBB)),
        Err(ApqInfoError::GroupIdMismatch)
    );
}

#[test]
fn matches_groups_rejects_wrong_pq_id() {
    let info = pq_apq_info();
    assert_eq!(
        info.matches_groups(&group_id(0xAA), &group_id(0xCC)),
        Err(ApqInfoError::GroupIdMismatch)
    );
}

#[test]
fn sync_counter_seeded_from_pq_epoch_is_valid() {
    for seed in [0u64, 1, 5, 1_000, u64::MAX / 2] {
        let mut info = pq_apq_info();
        info.t_epoch = seed;
        info.pq_epoch = seed;
        info.validate()
            .unwrap_or_else(|e| panic!("seed {seed} should be a valid APQ sync counter: {e:?}"));
    }
}

#[test]
fn deserialize_rejects_invalid_mode_byte() {
    let info = pq_apq_info();
    let mut bytes = tls_serialize_detached(&info).expect("serialize");
    *bytes.last_mut().unwrap() = 0xEE;
    let err = tls_deserialize_exact::<ApqInfo>(&bytes).unwrap_err();
    match err {
        TlsError::DecodingError(msg) => assert!(msg.contains("SecurityMode")),
        other => panic!("expected DecodingError, got {other:?}"),
    }
}
