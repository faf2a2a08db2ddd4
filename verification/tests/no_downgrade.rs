//! Conversations that never become weaker.
use kchat_mls::ciphersuite::security_mode::SecurityMode;
use kchat_mls::extensions::apq_info::ApqInfo;
use kchat_mls::group::no_downgrade::{
    validate_apq_info_change, validate_ciphersuite_pin, validate_epoch_consistency,
    validate_joiner_key_package, validate_mode_change, ConversationSecurityState, DowngradeError,
    MAX_EPOCH_DRIFT,
};
use kchat_mls::types::{Ciphersuite, GroupId};

fn classical_state() -> ConversationSecurityState {
    ConversationSecurityState::new(SecurityMode::Classical)
}

fn confidentiality_state() -> ConversationSecurityState {
    ConversationSecurityState::new(SecurityMode::PqConfidentiality)
}

fn authenticity_state() -> ConversationSecurityState {
    ConversationSecurityState::new(SecurityMode::PqAuthenticity)
}

fn classical_cs() -> Ciphersuite {
    Ciphersuite::MLS_128_DHKEMX25519_AES128GCM_SHA256_Ed25519
}

fn xwing_cs() -> Ciphersuite {
    Ciphersuite::MLS_256_XWING_CHACHA20POLY1305_SHA256_Ed25519
}

fn pq_apq_info() -> ApqInfo {
    ApqInfo::new(
        GroupId::from_slice(&[1; 16]),
        GroupId::from_slice(&[2; 16]),
        5,
        5,
        classical_cs(),
        xwing_cs(),
        SecurityMode::PqConfidentiality,
    )
}

#[test]
fn mode_change_accepts_upgrade() {
    let state = confidentiality_state();
    validate_mode_change(&state, SecurityMode::PqAuthenticity).expect("upgrade ok");
}

#[test]
fn mode_change_accepts_no_op() {
    let state = confidentiality_state();
    validate_mode_change(&state, SecurityMode::PqConfidentiality).expect("no-op ok");
}

#[test]
fn mode_change_rejects_pq_to_classical() {
    let state = confidentiality_state();
    assert_eq!(
        validate_mode_change(&state, SecurityMode::Classical),
        Err(DowngradeError::ModeDowngrade {
            from: SecurityMode::PqConfidentiality,
            to: SecurityMode::Classical,
        })
    );
}

#[test]
fn mode_change_rejects_authenticity_to_confidentiality() {
    let state = authenticity_state();
    assert_eq!(
        validate_mode_change(&state, SecurityMode::PqConfidentiality),
        Err(DowngradeError::ModeDowngrade {
            from: SecurityMode::PqAuthenticity,
            to: SecurityMode::PqConfidentiality,
        })
    );
}

#[test]
fn mode_change_rejects_below_highest_ever() {
    let mut state = authenticity_state();
    state.current_mode = SecurityMode::PqConfidentiality;
    assert_eq!(
        validate_mode_change(&state, SecurityMode::PqConfidentiality),
        Err(DowngradeError::BelowHighestEver {
            highest: SecurityMode::PqAuthenticity,
            to: SecurityMode::PqConfidentiality,
        })
    );
}

#[test]
fn mode_change_rejects_below_policy_floor() {
    let state = ConversationSecurityState {
        current_mode: SecurityMode::PqAuthenticity,
        highest_mode_ever: SecurityMode::PqAuthenticity,
        policy_floor: SecurityMode::PqAuthenticity,
        pinned_ciphersuite: None,
    };
    assert_eq!(
        validate_mode_change(&state, SecurityMode::PqConfidentiality),
        Err(DowngradeError::ModeDowngrade {
            from: SecurityMode::PqAuthenticity,
            to: SecurityMode::PqConfidentiality,
        })
    );
}

#[test]
fn joiner_classical_key_package_into_classical_ok() {
    validate_joiner_key_package(SecurityMode::Classical, classical_cs()).expect("ok");
}

#[test]
fn joiner_classical_key_package_into_confidentiality_rejected() {
    assert_eq!(
        validate_joiner_key_package(SecurityMode::PqConfidentiality, classical_cs()),
        Err(DowngradeError::JoinerKeyPackageNotPq {
            kp_mode: SecurityMode::Classical,
            required: SecurityMode::PqConfidentiality,
        })
    );
}

#[test]
fn joiner_pq_key_package_into_confidentiality_ok() {
    validate_joiner_key_package(SecurityMode::PqConfidentiality, xwing_cs()).expect("ok");
}

#[test]
fn apq_info_first_setup_ok() {
    let new = pq_apq_info();
    validate_apq_info_change(None, Some(&new)).expect("first setup");
}

#[test]
fn apq_info_unchanged_ok() {
    let old = pq_apq_info();
    let new = old.clone();
    validate_apq_info_change(Some(&old), Some(&new)).expect("unchanged");
}

#[test]
fn apq_info_removal_rejected() {
    let old = pq_apq_info();
    assert_eq!(
        validate_apq_info_change(Some(&old), None),
        Err(DowngradeError::ApqInfoRemoval)
    );
}

#[test]
fn apq_info_mode_downgrade_rejected() {
    let old = ApqInfo::new(
        GroupId::from_slice(&[1; 16]),
        GroupId::from_slice(&[2; 16]),
        5,
        5,
        classical_cs(),
        xwing_cs(),
        SecurityMode::PqAuthenticity,
    );
    let mut new = old.clone();
    new.mode = SecurityMode::PqConfidentiality;
    assert_eq!(
        validate_apq_info_change(Some(&old), Some(&new)),
        Err(DowngradeError::ApqInfoModeDowngrade {
            old: SecurityMode::PqAuthenticity,
            new: SecurityMode::PqConfidentiality,
        })
    );
}

#[test]
fn apq_info_mode_upgrade_ok() {
    let old = pq_apq_info();
    let mut new = old.clone();
    new.mode = SecurityMode::PqAuthenticity;
    validate_apq_info_change(Some(&old), Some(&new)).expect("upgrade ok");
}

#[test]
fn apq_info_t_ciphersuite_change_rejected() {
    let old = pq_apq_info();
    let mut new = old.clone();
    new.t_ciphersuite = Ciphersuite::MLS_128_DHKEMX25519_CHACHA20POLY1305_SHA256_Ed25519;
    assert_eq!(
        validate_apq_info_change(Some(&old), Some(&new)),
        Err(DowngradeError::ApqInfoCiphersuiteChange {
            old: classical_cs(),
            new: Ciphersuite::MLS_128_DHKEMX25519_CHACHA20POLY1305_SHA256_Ed25519,
        })
    );
}

#[test]
fn epoch_consistency_ok_when_within_drift() {
    validate_epoch_consistency(5, 5, None).expect("equal ok");
    validate_epoch_consistency(5, 6, None).expect("drift 1 ok");
    validate_epoch_consistency(7, 6, None).expect("drift 1 ok");
}

#[test]
fn epoch_consistency_rejects_drift_above_window() {
    assert_eq!(
        validate_epoch_consistency(5, 10, None),
        Err(DowngradeError::EpochMismatch {
            t_epoch: 5,
            pq_epoch: 10,
            max: MAX_EPOCH_DRIFT,
        })
    );
}

#[test]
fn epoch_consistency_rejects_drift_in_apq_info() {
    let mut info = pq_apq_info();
    info.t_epoch = 5;
    info.pq_epoch = 20;
    assert_eq!(
        validate_epoch_consistency(5, 5, Some(&info)),
        Err(DowngradeError::EpochMismatch {
            t_epoch: 5,
            pq_epoch: 20,
            max: MAX_EPOCH_DRIFT,
        })
    );
}

#[test]
fn ciphersuite_pin_unset_accepts_anything() {
    let state = classical_state();
    validate_ciphersuite_pin(&state, classical_cs()).expect("unset pin ok");
    validate_ciphersuite_pin(&state, xwing_cs()).expect("unset pin ok");
}

#[test]
fn ciphersuite_pin_set_accepts_match() {
    let mut state = confidentiality_state();
    state.pinned_ciphersuite = Some(xwing_cs());
    validate_ciphersuite_pin(&state, xwing_cs()).expect("matching pin ok");
}

#[test]
fn ciphersuite_pin_set_rejects_mismatch() {
    let mut state = confidentiality_state();
    state.pinned_ciphersuite = Some(xwing_cs());
    assert_eq!(
        validate_ciphersuite_pin(&state, classical_cs()),
        Err(DowngradeError::PinnedCiphersuiteChange {
            pinned: xwing_cs(),
            proposed: classical_cs(),
        })
    );
}

#[test]
fn record_upgrade_advances_state() {
    let mut state = confidentiality_state();
    state.record_upgrade(SecurityMode::PqAuthenticity);
    assert_eq!(state.current_mode, SecurityMode::PqAuthenticity);
    assert_eq!(state.highest_mode_ever, SecurityMode::PqAuthenticity);
}

#[test]
fn record_upgrade_does_not_lower_highest() {
    let mut state = authenticity_state();
    state.record_upgrade(SecurityMode::PqConfidentiality);
    assert_eq!(state.current_mode, SecurityMode::PqConfidentiality);
    assert_eq!(state.highest_mode_ever, SecurityMode::PqAuthenticity);
}
