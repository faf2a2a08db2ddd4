//! Which mode a new conversation gets.
use kchat_mls::ciphersuite::security_mode::SecurityMode;
use kchat_mls::credentials::device_capability::DeviceCapability;
use kchat_mls::group::conversation_upgrade::{select_conversation_mode, ConversationUpgradeError};
use kchat_mls::types::Ciphersuite;

fn classical_suites() -> Vec<Ciphersuite> {
    vec![
        Ciphersuite::MLS_128_DHKEMX25519_AES128GCM_SHA256_Ed25519,
        Ciphersuite::MLS_128_DHKEMX25519_CHACHA20POLY1305_SHA256_Ed25519,
    ]
}

fn xwing_suites() -> Vec<Ciphersuite> {
    vec![Ciphersuite::MLS_256_XWING_CHACHA20POLY1305_SHA256_Ed25519]
}

fn classical_only_peer() -> DeviceCapability {
    DeviceCapability::new(1, classical_suites(), vec![], false, false, "rc".into())
}

fn pq_conf_peer() -> DeviceCapability {
    DeviceCapability::new(
        1,
        classical_suites(),
        xwing_suites(),
        true,
        false,
        "libcrux".into(),
    )
}

fn pq_auth_peer() -> DeviceCapability {
    DeviceCapability::new(
        1,
        classical_suites(),
        xwing_suites(),
        true,
        true,
        "libcrux".into(),
    )
}

#[test]
fn empty_input_errors() {
    let result = select_conversation_mode(&[]);
    assert_eq!(result, Err(ConversationUpgradeError::NoParticipants));
}

#[test]
fn all_classical_picks_classical() {
    let peers = [classical_only_peer(), classical_only_peer()];
    let refs: Vec<&DeviceCapability> = peers.iter().collect();
    let (mode, cs) = select_conversation_mode(&refs).expect("classical select ok");
    assert_eq!(mode, SecurityMode::Classical);
    assert_eq!(
        cs,
        Ciphersuite::MLS_128_DHKEMX25519_AES128GCM_SHA256_Ed25519
    );
}

#[test]
fn mixed_falls_back_to_classical() {
    let peers = [classical_only_peer(), pq_conf_peer()];
    let refs: Vec<&DeviceCapability> = peers.iter().collect();
    let (mode, cs) = select_conversation_mode(&refs).expect("mixed select ok");
    assert_eq!(mode, SecurityMode::Classical);
    assert_eq!(
        cs,
        Ciphersuite::MLS_128_DHKEMX25519_AES128GCM_SHA256_Ed25519
    );
}

#[test]
fn all_pq_capable_picks_pq_confidentiality() {
    let peers = [pq_conf_peer(), pq_conf_peer()];
    let refs: Vec<&DeviceCapability> = peers.iter().collect();
    let (mode, cs) = select_conversation_mode(&refs).expect("pq select ok");
    assert_eq!(mode, SecurityMode::PqConfidentiality);
    assert_eq!(
        cs,
        Ciphersuite::MLS_256_XWING_CHACHA20POLY1305_SHA256_Ed25519
    );
}

#[test]
fn all_pq_auth_capable_falls_back_to_pq_confidentiality_without_auth_suites() {
    let peers = [pq_auth_peer(), pq_auth_peer()];
    let refs: Vec<&DeviceCapability> = peers.iter().collect();
    let (mode, cs) = select_conversation_mode(&refs).expect("within-PQ fallback ok");
    assert_eq!(mode, SecurityMode::PqConfidentiality);
    assert_eq!(
        cs,
        Ciphersuite::MLS_256_XWING_CHACHA20POLY1305_SHA256_Ed25519
    );
}

#[test]
fn classical_with_no_common_suite_errors() {
    let mut peer_a = classical_only_peer();
    peer_a.classical_ciphersuites =
        vec![Ciphersuite::MLS_128_DHKEMX25519_AES128GCM_SHA256_Ed25519];
    let mut peer_b = classical_only_peer();
    peer_b.classical_ciphersuites =
        vec![Ciphersuite::MLS_128_DHKEMX25519_CHACHA20POLY1305_SHA256_Ed25519];
    let refs = [&peer_a, &peer_b];
    let result = select_conversation_mode(&refs);
    assert_eq!(
        result,
        Err(ConversationUpgradeError::NoCommonCiphersuite {
            mode: SecurityMode::Classical,
        })
    );
}

#[test]
fn single_pq_peer_picks_pq_confidentiality() {
    let peers = [pq_conf_peer()];
    let refs: Vec<&DeviceCapability> = peers.iter().collect();
    let (mode, _cs) = select_conversation_mode(&refs).expect("single peer");
    assert_eq!(mode, SecurityMode::PqConfidentiality);
}
