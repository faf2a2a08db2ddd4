//! Security modes, and how they are chosen.
use kchat_mls::ciphersuite::security_mode::SecurityMode;
use kchat_mls::credentials::device_capability::DeviceCapability;
use kchat_mls::types::Ciphersuite;

fn classical_only_peer() -> DeviceCapability {
    DeviceCapability::new(
        1,
        vec![
            Ciphersuite::MLS_128_DHKEMX25519_AES128GCM_SHA256_Ed25519,
            Ciphersuite::MLS_128_DHKEMX25519_CHACHA20POLY1305_SHA256_Ed25519,
        ],
        vec![],
        false,
        false,
        "rustcrypto".to_string(),
    )
}

fn pq_confidentiality_peer() -> DeviceCapability {
    DeviceCapability::new(
        1,
        vec![Ciphersuite::MLS_128_DHKEMX25519_AES128GCM_SHA256_Ed25519],
        vec![Ciphersuite::MLS_256_XWING_CHACHA20POLY1305_SHA256_Ed25519],
        true,
        false,
        "libcrux".to_string(),
    )
}

fn pq_auth_peer() -> DeviceCapability {
    DeviceCapability::new(
        1,
        vec![Ciphersuite::MLS_128_DHKEMX25519_AES128GCM_SHA256_Ed25519],
        vec![Ciphersuite::MLS_256_XWING_CHACHA20POLY1305_SHA256_Ed25519],
        true,
        true,
        "libcrux".to_string(),
    )
}

#[test]
fn from_ciphersuite_classical() {
    assert_eq!(
        SecurityMode::from_ciphersuite(
            Ciphersuite::MLS_128_DHKEMX25519_AES128GCM_SHA256_Ed25519
        ),
        SecurityMode::Classical
    );
}

#[test]
fn from_ciphersuite_pq_confidentiality() {
    assert_eq!(
        SecurityMode::from_ciphersuite(
            Ciphersuite::MLS_256_XWING_CHACHA20POLY1305_SHA256_Ed25519
        ),
        SecurityMode::PqConfidentiality
    );
}

#[test]
fn from_ciphersuite_ml_kem_drafts_are_pq_confidentiality() {
    for cs in [
        Ciphersuite::MLS_256_MLKEM768_X25519_AES256GCM_SHA384_Ed25519,
        Ciphersuite::MLS_256_MLKEM768_X25519_CHACHA20POLY1305_SHA256_Ed25519,
        Ciphersuite::MLS_256_MLKEM1024_AES256GCM_SHA512_Ed448,
        Ciphersuite::MLS_256_MLKEM768_AES256GCM_SHA384_Ed25519,
    ] {
        assert_eq!(
            SecurityMode::from_ciphersuite(cs),
            SecurityMode::PqConfidentiality,
            "expected PqConfidentiality for {cs:?}"
        );
    }
}

#[test]
fn from_ciphersuite_ml_kem_with_mldsa_is_pq_authenticity() {
    for cs in [
        Ciphersuite::MLS_256_MLKEM768_X25519_AES256GCM_SHA384_MLDSA65,
        Ciphersuite::MLS_256_MLKEM768_AES256GCM_SHA384_MLDSA65,
    ] {
        assert_eq!(
            SecurityMode::from_ciphersuite(cs),
            SecurityMode::PqAuthenticity,
            "expected PqAuthenticity for {cs:?}"
        );
    }
}

#[test]
fn select_mode_all_classical() {
    let a = classical_only_peer();
    let b = classical_only_peer();
    assert_eq!(
        SecurityMode::select_mode(&[&a, &b]),
        SecurityMode::Classical
    );
}

#[test]
fn select_mode_one_classical_only_drops_to_classical() {
    let pq = pq_confidentiality_peer();
    let classical = classical_only_peer();
    assert_eq!(
        SecurityMode::select_mode(&[&pq, &classical]),
        SecurityMode::Classical
    );
}

#[test]
fn select_mode_all_pq_confidentiality() {
    let a = pq_confidentiality_peer();
    let b = pq_confidentiality_peer();
    assert_eq!(
        SecurityMode::select_mode(&[&a, &b]),
        SecurityMode::PqConfidentiality
    );
}

#[test]
fn select_mode_all_pq_auth() {
    let a = pq_auth_peer();
    let b = pq_auth_peer();
    assert_eq!(
        SecurityMode::select_mode(&[&a, &b]),
        SecurityMode::PqAuthenticity
    );
}

#[test]
fn select_mode_mixed_auth_falls_back_to_confidentiality() {
    let auth = pq_auth_peer();
    let conf = pq_confidentiality_peer();
    assert_eq!(
        SecurityMode::select_mode(&[&auth, &conf]),
        SecurityMode::PqConfidentiality
    );
}

#[test]
fn select_ciphersuite_classical_intersection() {
    let a = classical_only_peer();
    let b = classical_only_peer();
    let chosen = SecurityMode::select_ciphersuite(&[&a, &b], SecurityMode::Classical);
    assert_eq!(
        chosen,
        Some(Ciphersuite::MLS_128_DHKEMX25519_AES128GCM_SHA256_Ed25519)
    );
}

#[test]
fn select_ciphersuite_pq_confidentiality_picks_xwing() {
    let a = pq_confidentiality_peer();
    let b = pq_confidentiality_peer();
    let chosen = SecurityMode::select_ciphersuite(&[&a, &b], SecurityMode::PqConfidentiality);
    assert_eq!(
        chosen,
        Some(Ciphersuite::MLS_256_XWING_CHACHA20POLY1305_SHA256_Ed25519)
    );
}

#[test]
fn select_ciphersuite_pq_auth_returns_none_with_only_xwing() {
    let a = pq_auth_peer();
    let b = pq_auth_peer();
    let chosen = SecurityMode::select_ciphersuite(&[&a, &b], SecurityMode::PqAuthenticity);
    assert!(chosen.is_none());
}

#[test]
fn allows_transition_no_downgrade() {
    assert!(SecurityMode::allows_transition(
        SecurityMode::Classical,
        SecurityMode::Classical
    ));
    assert!(SecurityMode::allows_transition(
        SecurityMode::PqConfidentiality,
        SecurityMode::PqConfidentiality
    ));
    assert!(SecurityMode::allows_transition(
        SecurityMode::Classical,
        SecurityMode::PqConfidentiality
    ));
    assert!(SecurityMode::allows_transition(
        SecurityMode::PqConfidentiality,
        SecurityMode::PqAuthenticity
    ));
    assert!(SecurityMode::allows_transition(
        SecurityMode::Classical,
        SecurityMode::PqAuthenticity
    ));
    assert!(!SecurityMode::allows_transition(
        SecurityMode::PqConfidentiality,
        SecurityMode::Classical
    ));
    assert!(!SecurityMode::allows_transition(
        SecurityMode::PqAuthenticity,
        SecurityMode::Classical
    ));
    assert!(!SecurityMode::allows_transition(
        SecurityMode::PqAuthenticity,
        SecurityMode::PqConfidentiality
    ));
}

#[test]
fn ordering_is_classical_lt_conf_lt_auth() {
    assert!(SecurityMode::Classical < SecurityMode::PqConfidentiality);
    assert!(SecurityMode::PqConfidentiality < SecurityMode::PqAuthenticity);
}
