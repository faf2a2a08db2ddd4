//! Conversations over one or two sessions.
use kchat_mls::ciphersuite::security_mode::SecurityMode;
use kchat_mls::extensions::apq_info::ApqInfo;
use kchat_mls::group::kchat_conversation::{KChatConversationError, KChatMlsConversation};
use kchat_mls::types::{Ciphersuite, GroupId};

fn pq_apq_info() -> ApqInfo {
    ApqInfo::new(
        GroupId::from_slice(&[1; 16]),
        GroupId::from_slice(&[2; 16]),
        5,
        5,
        Ciphersuite::MLS_128_DHKEMX25519_AES128GCM_SHA256_Ed25519,
        Ciphersuite::MLS_256_XWING_CHACHA20POLY1305_SHA256_Ed25519,
        SecurityMode::PqConfidentiality,
    )
}

#[test]
fn direct_pq_constructor_rejects_classical_mode() {
    let mode = SecurityMode::Classical;
    assert!(
        matches!(mode, SecurityMode::Classical),
        "classical mode is rejected by new_direct_pq"
    );
}

#[test]
fn apq_info_mode_must_match_conversation_mode() {
    let info = pq_apq_info();
    let mismatch = KChatConversationError::ApqInfoModeMismatch {
        expected: SecurityMode::PqAuthenticity,
        got: info.mode,
    };
    assert_eq!(
        mismatch.message(),
        "APQ conversation mode PqAuthenticity does not match APQInfo mode PqConfidentiality"
    );
}

#[test]
fn apq_info_validation_propagates_through_constructor_error() {
    let mut info = pq_apq_info();
    info.t_group_id = info.pq_group_id.clone();
    let validation_err = info.validate().unwrap_err();
    let constructor_err = KChatConversationError::InvalidApqInfo(validation_err);
    assert!(matches!(
        constructor_err,
        KChatConversationError::InvalidApqInfo(_)
    ));
}

#[test]
fn classical_with_pq_material_error_renders_clearly() {
    let err = KChatConversationError::ClassicalWithPqMaterial;
    assert_eq!(
        err.message(),
        "Classical conversation must not have a PQ group or APQInfo"
    );
}

#[test]
fn direct_pq_with_classical_mode_error_renders_clearly() {
    let err = KChatConversationError::DirectPqWithClassicalMode {
        got: SecurityMode::Classical,
    };
    assert_eq!(
        err.message(),
        "DIRECT_PQ conversation must use a PQ security mode, got Classical"
    );
}
