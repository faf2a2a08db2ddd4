//! Modes, phases and capabilities as numbers and bytes.
use kchat_mls::bindings::capability::{
    select_conversation_mode_inner, DeviceCapability, LifecyclePhase, SecurityMode,
};
use kchat_mls::group::migration_state::ConversationLifecycle;
use kchat_mls::types::Ciphersuite;

fn classical_codepoint() -> u16 {
    Ciphersuite::MLS_128_DHKEMX25519_AES128GCM_SHA256_Ed25519.codepoint()
}

#[test]
fn pq_security_mode_ordering_matches_inner() {
    assert!((SecurityMode::Classical as u8) < (SecurityMode::PqConfidentiality as u8));
    assert!((SecurityMode::PqConfidentiality as u8) < (SecurityMode::PqAuthenticity as u8));
}

#[test]
fn pq_device_capability_round_trips_through_tls() {
    let cap = DeviceCapability::new(
        1,
        vec![classical_codepoint()],
        vec![],
        false,
        false,
        "rustcrypto-wasm".to_string(),
    )
    .expect("DeviceCapability::new must succeed");
    let bytes = cap.tls_encode().expect("tls_encode");
    let round = DeviceCapability::tls_decode(&bytes).expect("tls_decode");
    assert_eq!(round.mls_version(), cap.mls_version());
    assert_eq!(round.classical_ciphersuites(), cap.classical_ciphersuites());
    assert_eq!(round.provider_id(), cap.provider_id());
}

#[test]
fn pq_select_conversation_mode_with_only_classical_peers_returns_classical() {
    let cap = DeviceCapability::new(
        1,
        vec![classical_codepoint()],
        vec![],
        false,
        false,
        "rustcrypto-wasm".to_string(),
    )
    .unwrap();
    let result = select_conversation_mode_inner(&[cap.clone(), cap])
        .expect("select_conversation_mode must succeed for classical-only peers");
    assert_eq!(result.mode(), SecurityMode::Classical);
    assert_eq!(result.ciphersuite(), classical_codepoint());
}

#[test]
fn pq_select_conversation_mode_rejects_empty_peer_list() {
    let result = select_conversation_mode_inner(&[]);
    assert!(result.is_err(), "empty peer list must error out");
}

#[test]
fn pq_lifecycle_phase_classical_for_default_state() {
    let phase: LifecyclePhase = (&ConversationLifecycle::Classical).into();
    assert_eq!(phase, LifecyclePhase::Classical);
}

#[test]
fn pq_lifecycle_phase_failed_drops_reason() {
    let phase: LifecyclePhase = (&ConversationLifecycle::Failed("anything".to_string())).into();
    assert_eq!(phase, LifecyclePhase::Failed);
}
