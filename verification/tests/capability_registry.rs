//! The registry of verified capabilities.
use kchat_mls::credentials::capability_registry::{CapabilityRegistry, RegistryError};
use kchat_mls::credentials::device_capability::DeviceCapability;
use kchat_mls::crypto::CryptoProvider;
use kchat_mls::types::{Ciphersuite, CryptoError, SignatureScheme};

struct SignatureKeyPair {
    private: Vec<u8>,
    public: Vec<u8>,
}

impl SignatureKeyPair {
    fn new(scheme: SignatureScheme) -> Result<Self, CryptoError> {
        let crypto = CryptoProvider::new().expect("crypto provider");
        let (private, public) = crypto.signature_key_gen(scheme)?;
        Ok(SignatureKeyPair { private, public })
    }

    fn private(&self) -> &[u8] {
        &self.private
    }

    fn public(&self) -> &[u8] {
        &self.public
    }
}

fn classical_cs() -> Ciphersuite {
    Ciphersuite::MLS_128_DHKEMX25519_AES128GCM_SHA256_Ed25519
}

fn signed_capability(
    crypto: &CryptoProvider,
) -> (DeviceCapability, SignatureKeyPair, SignatureScheme) {
    let scheme = classical_cs().signature_algorithm();
    let signer = SignatureKeyPair::new(scheme).expect("signer");
    let mut cap = DeviceCapability::new(
        1,
        vec![classical_cs()],
        vec![],
        false,
        false,
        "rustcrypto".into(),
    );
    cap.sign(scheme, signer.private(), crypto).expect("sign");
    (cap, signer, scheme)
}

#[test]
fn store_and_fetch_round_trip() {
    let provider = CryptoProvider::new().expect("crypto provider");
    let crypto = &provider;
    let (cap, signer, scheme) = signed_capability(crypto);

    let mut registry = CapabilityRegistry::new();
    registry
        .store(
            b"alice".to_vec(),
            b"phone".to_vec(),
            cap.clone(),
            scheme,
            signer.public(),
            crypto,
        )
        .expect("store");

    assert_eq!(registry.len(), 1);
    let fetched = registry.fetch(b"alice", b"phone").expect("fetched");
    assert_eq!(fetched, &cap);
}

#[test]
fn store_rejects_unsigned_capability() {
    let provider = CryptoProvider::new().expect("crypto provider");
    let crypto = &provider;
    let scheme = classical_cs().signature_algorithm();
    let signer = SignatureKeyPair::new(scheme).expect("signer");
    let cap = DeviceCapability::new(
        1,
        vec![classical_cs()],
        vec![],
        false,
        false,
        "rustcrypto".into(),
    );
    assert!(!cap.is_signed());

    let mut registry = CapabilityRegistry::new();
    let err = registry
        .store(
            b"alice".to_vec(),
            b"phone".to_vec(),
            cap,
            scheme,
            signer.public(),
            crypto,
        )
        .expect_err("unsigned must be rejected");
    assert_eq!(err, RegistryError::UnsignedCapability);
    assert!(registry.is_empty());
}

#[test]
fn store_rejects_tampered_signature() {
    let provider = CryptoProvider::new().expect("crypto provider");
    let crypto = &provider;
    let (mut cap, signer, scheme) = signed_capability(crypto);

    cap.provider_id = "evil-provider".into();

    let mut registry = CapabilityRegistry::new();
    let err = registry
        .store(
            b"alice".to_vec(),
            b"phone".to_vec(),
            cap,
            scheme,
            signer.public(),
            crypto,
        )
        .expect_err("tampered must be rejected");
    assert_eq!(err, RegistryError::InvalidSignature);
    assert!(registry.is_empty());
}

#[test]
fn store_rejects_signature_for_other_key() {
    let provider = CryptoProvider::new().expect("crypto provider");
    let crypto = &provider;
    let (cap, _alice_signer, scheme) = signed_capability(crypto);

    let bad_signer = SignatureKeyPair::new(scheme).expect("bad signer");

    let mut registry = CapabilityRegistry::new();
    let err = registry
        .store(
            b"alice".to_vec(),
            b"phone".to_vec(),
            cap,
            scheme,
            bad_signer.public(),
            crypto,
        )
        .expect_err("wrong key must be rejected");
    assert_eq!(err, RegistryError::InvalidSignature);
}

#[test]
fn fetch_returns_none_for_missing_device() {
    let registry = CapabilityRegistry::new();
    assert!(registry.fetch(b"alice", b"phone").is_none());
}

#[test]
fn fetch_all_for_user_returns_every_device() {
    let provider = CryptoProvider::new().expect("crypto provider");
    let crypto = &provider;
    let (phone_cap, phone_signer, scheme) = signed_capability(crypto);
    let (laptop_cap, laptop_signer, _) = signed_capability(crypto);

    let mut registry = CapabilityRegistry::new();
    registry
        .store(
            b"alice".to_vec(),
            b"phone".to_vec(),
            phone_cap.clone(),
            scheme,
            phone_signer.public(),
            crypto,
        )
        .expect("store phone");
    registry
        .store(
            b"alice".to_vec(),
            b"laptop".to_vec(),
            laptop_cap.clone(),
            scheme,
            laptop_signer.public(),
            crypto,
        )
        .expect("store laptop");

    let mut alice_caps = registry.fetch_all_for_user(b"alice");
    alice_caps.sort_by(|a, b| a.provider_id.cmp(&b.provider_id));
    assert_eq!(alice_caps.len(), 2);

    assert!(registry.fetch_all_for_user(b"bob").is_empty());
}

#[test]
fn remove_returns_true_when_entry_existed_and_false_otherwise() {
    let provider = CryptoProvider::new().expect("crypto provider");
    let crypto = &provider;
    let (cap, signer, scheme) = signed_capability(crypto);

    let mut registry = CapabilityRegistry::new();
    registry
        .store(
            b"alice".to_vec(),
            b"phone".to_vec(),
            cap,
            scheme,
            signer.public(),
            crypto,
        )
        .expect("store");

    assert!(registry.remove(b"alice", b"phone"));
    assert!(registry.fetch(b"alice", b"phone").is_none());
    assert!(!registry.remove(b"alice", b"phone"));
    assert!(!registry.remove(b"bob", b"unknown"));
}

#[test]
fn store_overwrites_existing_entry_for_same_device() {
    let provider = CryptoProvider::new().expect("crypto provider");
    let crypto = &provider;
    let (cap_v1, signer, scheme) = signed_capability(crypto);

    let mut cap_v2 = DeviceCapability::new(
        2,
        vec![classical_cs()],
        vec![],
        true,
        false,
        "rustcrypto".into(),
    );
    cap_v2
        .sign(scheme, signer.private(), crypto)
        .expect("sign v2");

    let mut registry = CapabilityRegistry::new();
    registry
        .store(
            b"alice".to_vec(),
            b"phone".to_vec(),
            cap_v1,
            scheme,
            signer.public(),
            crypto,
        )
        .expect("store v1");
    registry
        .store(
            b"alice".to_vec(),
            b"phone".to_vec(),
            cap_v2.clone(),
            scheme,
            signer.public(),
            crypto,
        )
        .expect("store v2");

    let fetched = registry.fetch(b"alice", b"phone").expect("present");
    assert_eq!(fetched, &cap_v2);
    assert_eq!(registry.len(), 1);
}
