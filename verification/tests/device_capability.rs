//! Device capabilities, on the wire and signed.
use kchat_mls::credentials::device_capability::{CredentialError, DeviceCapability};
use kchat_mls::crypto::CryptoProvider;
use kchat_mls::tls::VLBytes;
use kchat_mls::types::{Ciphersuite, SignatureScheme};
use kchat_mls::wire::{tls_deserialize_exact, tls_serialize_detached};

fn sample_capability() -> DeviceCapability {
    DeviceCapability::new(
        1,
        vec![
            Ciphersuite::MLS_128_DHKEMX25519_AES128GCM_SHA256_Ed25519,
            Ciphersuite::MLS_128_DHKEMX25519_CHACHA20POLY1305_SHA256_Ed25519,
        ],
        vec![Ciphersuite::MLS_256_XWING_CHACHA20POLY1305_SHA256_Ed25519],
        true,
        false,
        "libcrux".to_string(),
    )
}

#[test]
fn payload_does_not_include_signature() {
    let mut cap = sample_capability();
    let payload_unsigned = cap.serializable_payload();
    cap.capability_signature = VLBytes::new(vec![0xAB, 0xCD, 0xEF]);
    let payload_signed = cap.serializable_payload();
    assert_eq!(
        payload_unsigned, payload_signed,
        "serializable_payload must not depend on capability_signature"
    );
}

#[test]
fn supports_pq_and_apq() {
    let cap = sample_capability();
    assert!(cap.supports_pq());
    assert!(cap.supports_apq());

    let classical_only = DeviceCapability::new(
        1,
        vec![Ciphersuite::MLS_128_DHKEMX25519_AES128GCM_SHA256_Ed25519],
        vec![],
        false,
        false,
        "rustcrypto".to_string(),
    );
    assert!(!classical_only.supports_pq());
    assert!(!classical_only.supports_apq());
}

#[test]
fn tls_roundtrip() {
    let cap = sample_capability();
    let bytes = tls_serialize_detached(&cap).expect("serialize");
    let decoded = tls_deserialize_exact::<DeviceCapability>(&bytes).expect("deserialize");
    assert_eq!(cap, decoded);
}

#[test]
fn invalid_bool_rejected() {
    let mut cap = sample_capability();
    let mut bytes = tls_serialize_detached(&cap).expect("serialize");
    let prefix_len = 2
        + (1 + 2 * cap.classical_ciphersuites.len())
        + (1 + 2 * cap.pq_ciphersuites.len());
    bytes[prefix_len] = 0xFF;
    assert!(tls_deserialize_exact::<DeviceCapability>(&bytes).is_err());

    cap.capability_signature = VLBytes::new(Vec::new());
}

#[test]
fn sign_is_signed_verify() {
    let crypto = CryptoProvider::new().expect("crypto provider");
    let (private, public) = crypto
        .signature_key_gen(SignatureScheme::ED25519)
        .expect("keygen");

    let mut cap = sample_capability();
    assert!(!cap.is_signed());
    cap.sign(SignatureScheme::ED25519, &private, &crypto)
        .expect("sign");
    assert!(cap.is_signed());
    cap.verify(SignatureScheme::ED25519, &public, &crypto)
        .expect("verify");
}

#[test]
fn verify_rejects_unsigned() {
    let crypto = CryptoProvider::new().expect("crypto provider");
    let (_, public) = crypto
        .signature_key_gen(SignatureScheme::ED25519)
        .expect("keygen");

    let cap = sample_capability();
    assert!(matches!(
        cap.verify(SignatureScheme::ED25519, &public, &crypto),
        Err(CredentialError::InvalidSignature)
    ));
}

#[test]
fn best_common_ciphersuite_prefers_pq() {
    let a = sample_capability();
    let b = sample_capability();
    let chosen = DeviceCapability::best_common_ciphersuite(&[&a, &b]);
    assert_eq!(
        chosen,
        Some(Ciphersuite::MLS_256_XWING_CHACHA20POLY1305_SHA256_Ed25519)
    );
}

#[test]
fn best_common_ciphersuite_falls_back_to_classical() {
    let a = sample_capability();
    let classical_only = DeviceCapability::new(
        1,
        vec![
            Ciphersuite::MLS_128_DHKEMX25519_AES128GCM_SHA256_Ed25519,
            Ciphersuite::MLS_128_DHKEMX25519_CHACHA20POLY1305_SHA256_Ed25519,
        ],
        vec![],
        false,
        false,
        "rustcrypto".to_string(),
    );
    let chosen = DeviceCapability::best_common_ciphersuite(&[&a, &classical_only]);
    assert_eq!(
        chosen,
        Some(Ciphersuite::MLS_128_DHKEMX25519_AES128GCM_SHA256_Ed25519)
    );
}

#[test]
fn best_common_ciphersuite_disjoint_returns_none() {
    let a = DeviceCapability::new(
        1,
        vec![Ciphersuite::MLS_128_DHKEMX25519_AES128GCM_SHA256_Ed25519],
        vec![],
        false,
        false,
        "a".to_string(),
    );
    let b = DeviceCapability::new(
        1,
        vec![Ciphersuite::MLS_128_DHKEMP256_AES128GCM_SHA256_P256],
        vec![],
        false,
        false,
        "b".to_string(),
    );
    assert!(DeviceCapability::best_common_ciphersuite(&[&a, &b]).is_none());
}
