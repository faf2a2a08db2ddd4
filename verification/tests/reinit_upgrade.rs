//! Groups that start again under another suite.
use kchat_mls::ciphersuite::security_mode::SecurityMode;
use kchat_mls::group::apq_commit::APQ_PSK_LABEL;
use kchat_mls::group::reinit_upgrade::{
    ReInitError, ReInitPlan, REINIT_PSK_LABEL, REINIT_PSK_LENGTH, REINIT_PSK_NONCE_LENGTH,
};
use kchat_mls::mls::ProtocolVersion;
use kchat_mls::types::{Ciphersuite, GroupId};

fn classical_cs() -> Ciphersuite {
    Ciphersuite::MLS_128_DHKEMX25519_AES128GCM_SHA256_Ed25519
}

fn xwing_cs() -> Ciphersuite {
    Ciphersuite::MLS_256_XWING_CHACHA20POLY1305_SHA256_Ed25519
}

#[test]
fn reinit_plan_defaults_are_sensible() {
    let plan = ReInitPlan::new(GroupId::from_slice(&[7u8; 16]), xwing_cs());
    assert_eq!(plan.new_ciphersuite, xwing_cs());
    assert_eq!(plan.new_version, ProtocolVersion::default());
    assert!(plan.new_extensions.iter().next().is_none());
}

#[test]
fn target_cs_same_as_old_error_renders_clearly() {
    let err = ReInitError::TargetCiphersuiteSameAsOld {
        got: classical_cs(),
    };
    let rendered = err.message();
    assert!(
        rendered.contains("matches the old group"),
        "unexpected message: {rendered}"
    );
    assert!(
        rendered.contains("nothing to upgrade"),
        "unexpected message: {rendered}"
    );
}

#[test]
fn downgrade_attempt_error_renders_clearly() {
    let err = ReInitError::DowngradeAttempt {
        old: SecurityMode::PqAuthenticity,
        target: SecurityMode::Classical,
    };
    let rendered = err.message();
    assert!(rendered.contains("PqAuthenticity"));
    assert!(rendered.contains("Classical"));
    assert!(rendered.contains("downgrade"));
}

#[test]
fn old_group_inactive_error_renders_clearly() {
    let err = ReInitError::OldGroupInactive;
    assert_eq!(
        err.message(),
        "old group is not active (already inactive / evicted)"
    );
}

#[test]
fn commit_failed_error_propagates_underlying_string() {
    let err = ReInitError::CommitFailed("stage_commit: boom".into());
    let rendered = err.message();
    assert!(rendered.contains("ReInit commit on old group failed"));
    assert!(rendered.contains("boom"));
}

#[test]
fn export_secret_failed_error_renders_clearly() {
    let err = ReInitError::ExportSecretFailed("no exporter".into());
    let rendered = err.message();
    assert!(rendered.contains("export of ReInit resumption PSK failed"));
    assert!(rendered.contains("no exporter"));
}

#[test]
fn psk_store_failed_error_renders_clearly() {
    let err = ReInitError::PskStoreFailed("disk full".into());
    let rendered = err.message();
    assert!(rendered.contains("resumption PSK store failed"));
    assert!(rendered.contains("disk full"));
}

#[test]
fn reinit_psk_label_is_stable_domain_separator() {
    assert_eq!(REINIT_PSK_LABEL, "kchat-reinit-psk");
    assert_eq!(REINIT_PSK_LENGTH, 32);
    assert_eq!(REINIT_PSK_NONCE_LENGTH, 32);
    assert_ne!(
        REINIT_PSK_LABEL,
        APQ_PSK_LABEL,
        "ReInit PSK and APQ PSK must use different labels"
    );
}
