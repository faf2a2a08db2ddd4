//! What a server keeps about conversations.
use kchat_mls::ciphersuite::security_mode::SecurityMode;
use kchat_mls::extensions::apq_info::ApqInfo;
use kchat_mls::group::conversation_metadata::{
    ConversationMetadata, ConversationMetadataService, MetadataError,
};
use kchat_mls::group::no_downgrade::ConversationSecurityState;
use kchat_mls::types::{Ciphersuite, GroupId};

fn classical_cs() -> Ciphersuite {
    Ciphersuite::MLS_128_DHKEMX25519_AES128GCM_SHA256_Ed25519
}

fn xwing_cs() -> Ciphersuite {
    Ciphersuite::MLS_256_XWING_CHACHA20POLY1305_SHA256_Ed25519
}

fn apq_info(mode: SecurityMode) -> ApqInfo {
    ApqInfo::new(
        GroupId::from_slice(&[0xAA; 16]),
        GroupId::from_slice(&[0xBB; 16]),
        0,
        0,
        classical_cs(),
        xwing_cs(),
        mode,
    )
}

#[test]
fn register_and_get_round_trip() {
    let mut svc = ConversationMetadataService::new();
    let meta = ConversationMetadata::new(
        b"conv-1".to_vec(),
        ConversationSecurityState::new(SecurityMode::Classical),
        Some(GroupId::from_slice(&[0xAA; 16])),
        None,
        None,
        10,
    );
    svc.register(meta.clone()).expect("register");
    let fetched = svc.get(b"conv-1").expect("present");
    assert_eq!(fetched, &meta);
    assert_eq!(svc.len(), 1);
}

#[test]
fn register_rejects_duplicate_conversation() {
    let mut svc = ConversationMetadataService::new();
    let meta = ConversationMetadata::new(
        b"conv-1".to_vec(),
        ConversationSecurityState::new(SecurityMode::Classical),
        None,
        None,
        None,
        0,
    );
    svc.register(meta.clone()).expect("first register");
    let err = svc.register(meta).expect_err("duplicate must be rejected");
    assert_eq!(err, MetadataError::AlreadyRegistered);
}

#[test]
fn update_security_state_allows_upgrade() {
    let mut svc = ConversationMetadataService::new();
    let meta = ConversationMetadata::new(
        b"conv-1".to_vec(),
        ConversationSecurityState::new(SecurityMode::Classical),
        None,
        None,
        None,
        0,
    );
    svc.register(meta).expect("register");

    svc.update_security_state(b"conv-1", SecurityMode::PqConfidentiality)
        .expect("upgrade ok");
    let entry = svc.get(b"conv-1").unwrap();
    assert_eq!(
        entry.security_state.current_mode,
        SecurityMode::PqConfidentiality
    );
    assert_eq!(
        entry.security_state.highest_mode_ever,
        SecurityMode::PqConfidentiality
    );
    assert!(entry.last_updated > 0);
}

#[test]
fn update_security_state_rejects_downgrade() {
    let mut svc = ConversationMetadataService::new();
    let meta = ConversationMetadata::new(
        b"conv-1".to_vec(),
        ConversationSecurityState::new(SecurityMode::PqAuthenticity),
        None,
        None,
        None,
        0,
    );
    svc.register(meta).expect("register");

    let err = svc
        .update_security_state(b"conv-1", SecurityMode::PqConfidentiality)
        .expect_err("downgrade rejected");
    assert!(matches!(err, MetadataError::DowngradeRejected(_)));

    let entry = svc.get(b"conv-1").unwrap();
    assert_eq!(
        entry.security_state.current_mode,
        SecurityMode::PqAuthenticity
    );
}

#[test]
fn update_security_state_returns_not_found_for_unknown_conversation() {
    let mut svc = ConversationMetadataService::new();
    let err = svc
        .update_security_state(b"missing", SecurityMode::PqConfidentiality)
        .expect_err("missing convo must NotFound");
    assert_eq!(err, MetadataError::NotFound);
}

#[test]
fn update_apq_info_allows_first_install() {
    let mut svc = ConversationMetadataService::new();
    let meta = ConversationMetadata::new(
        b"conv-1".to_vec(),
        ConversationSecurityState::new(SecurityMode::Classical),
        Some(GroupId::from_slice(&[0xAA; 16])),
        None,
        None,
        0,
    );
    svc.register(meta).expect("register");

    let info = apq_info(SecurityMode::PqConfidentiality);
    svc.update_apq_info(b"conv-1", info.clone())
        .expect("first install ok");
    assert_eq!(svc.get(b"conv-1").unwrap().apq_info, Some(info));
}

#[test]
fn update_apq_info_rejects_invalid_info() {
    let mut svc = ConversationMetadataService::new();
    let meta = ConversationMetadata::new(
        b"conv-1".to_vec(),
        ConversationSecurityState::new(SecurityMode::Classical),
        None,
        None,
        None,
        0,
    );
    svc.register(meta).expect("register");

    let same_id = GroupId::from_slice(&[0xAA; 16]);
    let bad = ApqInfo::new(
        same_id.clone(),
        same_id,
        0,
        0,
        classical_cs(),
        xwing_cs(),
        SecurityMode::PqConfidentiality,
    );
    let err = svc
        .update_apq_info(b"conv-1", bad)
        .expect_err("invalid info must be rejected");
    assert!(matches!(err, MetadataError::InvalidApqInfo(_)));
}

#[test]
fn update_apq_info_rejects_mode_downgrade() {
    let mut svc = ConversationMetadataService::new();
    let meta = ConversationMetadata::new(
        b"conv-1".to_vec(),
        ConversationSecurityState::new(SecurityMode::PqAuthenticity),
        None,
        None,
        Some(apq_info(SecurityMode::PqAuthenticity)),
        0,
    );
    svc.register(meta).expect("register");

    let weaker = apq_info(SecurityMode::PqConfidentiality);
    let err = svc
        .update_apq_info(b"conv-1", weaker)
        .expect_err("apq mode downgrade must be rejected");
    assert!(matches!(err, MetadataError::DowngradeRejected(_)));
}

#[test]
fn update_apq_info_returns_not_found_for_unknown_conversation() {
    let mut svc = ConversationMetadataService::new();
    let err = svc
        .update_apq_info(b"missing", apq_info(SecurityMode::PqConfidentiality))
        .expect_err("missing convo must NotFound");
    assert_eq!(err, MetadataError::NotFound);
}
