//! The messages around the capability registry.
use kchat_mls::credentials::capability_protocol::{
    build_update_notification, process_fetch, process_publish, CapabilityFetchKey,
    CapabilityFetchRequest, CapabilityFetchResponse, CapabilityPublishRequest,
    CapabilityUpdateNotification, FetchedCapability, ProtocolError,
};
use kchat_mls::credentials::capability_registry::{CapabilityRegistry, RegistryError};
use kchat_mls::credentials::device_capability::DeviceCapability;
use kchat_mls::tls::VLBytes;
use kchat_mls::crypto::CryptoProvider;
use kchat_mls::types::{Ciphersuite, CryptoError, SignatureScheme};
use kchat_mls::wire::{tls_deserialize_exact, tls_serialize_detached};

struct SignatureKeyPair {
    private: Vec<u8>,
    public: Vec<u8>,
}

impl SignatureKeyPair {
    fn new(scheme: SignatureScheme) -> Result<Self, CryptoError> {
        let crypto = CryptoProvider::new().expect("crypto provider");
        let (private, public) = crypto.signature_key_gen(scheme)?;
        Ok(SignatureKeyPair { private, public })
    }

    fn private(&self) -> &[u8] {
        &self.private
    }

    fn public(&self) -> &[u8] {
        &self.public
    }
}

fn classical_cs() -> Ciphersuite {
    Ciphersuite::MLS_128_DHKEMX25519_AES128GCM_SHA256_Ed25519
}

fn signed_capability(provider: &CryptoProvider) -> (DeviceCapability, SignatureKeyPair) {
    let cs = classical_cs();
    let scheme = cs.signature_algorithm();
    let keypair = SignatureKeyPair::new(scheme).expect("keypair generation");
    let mut cap =
        DeviceCapability::new(1, vec![cs], vec![], false, false, "rustcrypto".to_string());
    cap.sign(scheme, keypair.private(), provider)
        .expect("sign capability");
    (cap, keypair)
}

fn publish_request(
    user_id: &[u8],
    device_id: &[u8],
    cap: DeviceCapability,
    keypair: &SignatureKeyPair,
) -> CapabilityPublishRequest {
    CapabilityPublishRequest {
        user_id: VLBytes::new(user_id.to_vec()),
        device_id: VLBytes::new(device_id.to_vec()),
        signature_scheme: classical_cs().signature_algorithm(),
        public_key: VLBytes::new(keypair.public().to_vec()),
        capability: cap,
    }
}

#[test]
fn publish_request_round_trips_through_tls_codec() {
    let provider = CryptoProvider::new().expect("crypto provider");
    let (cap, keypair) = signed_capability(&provider);
    let req = publish_request(b"alice", b"phone", cap, &keypair);

    let encoded = tls_serialize_detached(&req).expect("serialize");
    let decoded =
        tls_deserialize_exact::<CapabilityPublishRequest>(&encoded).expect("deserialize");
    assert_eq!(req, decoded);
}

#[test]
fn fetch_response_round_trips_through_tls_codec() {
    let provider = CryptoProvider::new().expect("crypto provider");
    let (cap, _) = signed_capability(&provider);
    let response = CapabilityFetchResponse {
        entries: vec![
            FetchedCapability {
                user_id: VLBytes::new(b"alice".to_vec()),
                device_id: VLBytes::new(b"phone".to_vec()),
                capability: Some(cap),
                version: 7,
            },
            FetchedCapability {
                user_id: VLBytes::new(b"bob".to_vec()),
                device_id: VLBytes::new(b"phone".to_vec()),
                capability: None,
                version: 0,
            },
        ],
    };

    let encoded = tls_serialize_detached(&response).expect("serialize");
    let decoded =
        tls_deserialize_exact::<CapabilityFetchResponse>(&encoded).expect("deserialize");
    assert_eq!(response, decoded);
}

#[test]
fn process_publish_accepts_signed_capability() {
    let provider = CryptoProvider::new().expect("crypto provider");
    let (cap, keypair) = signed_capability(&provider);
    let req = publish_request(b"alice", b"phone", cap, &keypair);

    let mut registry = CapabilityRegistry::new();
    let response = process_publish(&mut registry, req, 1, &provider)
        .expect("publish must succeed for a valid signed capability");

    assert_eq!(response.user_id.as_slice(), b"alice");
    assert_eq!(response.device_id.as_slice(), b"phone");
    assert_eq!(response.version, 1);
    assert_eq!(registry.len(), 1);
    assert!(registry.fetch(b"alice", b"phone").is_some());
}

#[test]
fn process_publish_rejects_unsigned_capability() {
    let provider = CryptoProvider::new().expect("crypto provider");
    let cs = classical_cs();
    let keypair = SignatureKeyPair::new(cs.signature_algorithm()).expect("keypair generation");
    let cap =
        DeviceCapability::new(1, vec![cs], vec![], false, false, "rustcrypto".to_string());
    let req = publish_request(b"alice", b"phone", cap, &keypair);

    let mut registry = CapabilityRegistry::new();
    let err = process_publish(&mut registry, req, 1, &provider)
        .expect_err("unsigned blob must be rejected");
    assert_eq!(
        err,
        ProtocolError::Registry(RegistryError::UnsignedCapability)
    );
    assert_eq!(registry.len(), 0);
}

#[test]
fn process_publish_rejects_signature_mismatch() {
    let provider = CryptoProvider::new().expect("crypto provider");
    let (cap, _real_keypair) = signed_capability(&provider);

    let cs = classical_cs();
    let other = SignatureKeyPair::new(cs.signature_algorithm()).expect("keypair");
    let req = CapabilityPublishRequest {
        user_id: VLBytes::new(b"alice".to_vec()),
        device_id: VLBytes::new(b"phone".to_vec()),
        signature_scheme: cs.signature_algorithm(),
        public_key: VLBytes::new(other.public().to_vec()),
        capability: cap,
    };

    let mut registry = CapabilityRegistry::new();
    let err = process_publish(&mut registry, req, 1, &provider)
        .expect_err("signature mismatch must be rejected");
    assert_eq!(
        err,
        ProtocolError::Registry(RegistryError::InvalidSignature)
    );
    assert_eq!(registry.len(), 0);
}

#[test]
fn process_fetch_returns_none_for_unknown_devices() {
    let provider = CryptoProvider::new().expect("crypto provider");
    let (cap, keypair) = signed_capability(&provider);
    let mut registry = CapabilityRegistry::new();
    process_publish(
        &mut registry,
        publish_request(b"alice", b"phone", cap, &keypair),
        1,
        &provider,
    )
    .expect("publish");

    let request = CapabilityFetchRequest {
        keys: vec![
            CapabilityFetchKey {
                user_id: VLBytes::new(b"alice".to_vec()),
                device_id: VLBytes::new(b"phone".to_vec()),
            },
            CapabilityFetchKey {
                user_id: VLBytes::new(b"bob".to_vec()),
                device_id: VLBytes::new(b"phone".to_vec()),
            },
        ],
    };

    let response = process_fetch(&registry, &request, |_user, _device| 1);
    assert_eq!(response.entries.len(), 2);

    let alice = response
        .entries
        .iter()
        .find(|e| e.user_id.as_slice() == b"alice")
        .expect("alice should be present");
    assert!(alice.capability.is_some());
    assert_eq!(alice.version, 1);

    let bob = response
        .entries
        .iter()
        .find(|e| e.user_id.as_slice() == b"bob")
        .expect("bob should be present");
    assert!(bob.capability.is_none());
    assert_eq!(bob.version, 0);
}

#[test]
fn fetched_capability_signature_re_verifies_after_round_trip() {
    let provider = CryptoProvider::new().expect("crypto provider");
    let (cap, keypair) = signed_capability(&provider);
    let mut registry = CapabilityRegistry::new();
    process_publish(
        &mut registry,
        publish_request(b"alice", b"phone", cap.clone(), &keypair),
        1,
        &provider,
    )
    .expect("publish");

    let request = CapabilityFetchRequest {
        keys: vec![CapabilityFetchKey {
            user_id: VLBytes::new(b"alice".to_vec()),
            device_id: VLBytes::new(b"phone".to_vec()),
        }],
    };
    let response = process_fetch(&registry, &request, |_, _| 1);

    let alice = response
        .entries
        .iter()
        .find(|e| e.user_id.as_slice() == b"alice")
        .expect("alice should be present");
    let returned = alice
        .capability
        .as_ref()
        .expect("alice capability should be present");

    let bytes = tls_serialize_detached(returned).expect("serialize");
    let recovered = tls_deserialize_exact::<DeviceCapability>(&bytes).expect("deserialize");
    recovered
        .verify(
            classical_cs().signature_algorithm(),
            keypair.public(),
            &provider,
        )
        .expect("server-forwarded capability must still verify on the client");
}

#[test]
fn build_update_notification_round_trips() {
    let n = build_update_notification(b"alice".to_vec(), b"phone".to_vec(), 42);
    assert_eq!(n.user_id.as_slice(), b"alice");
    assert_eq!(n.device_id.as_slice(), b"phone");
    assert_eq!(n.version, 42);

    let bytes = tls_serialize_detached(&n).expect("serialize");
    let decoded =
        tls_deserialize_exact::<CapabilityUpdateNotification>(&bytes).expect("deserialize");
    assert_eq!(n, decoded);
}

#[test]
fn end_to_end_publish_then_fetch_then_notify() {
    let provider = CryptoProvider::new().expect("crypto provider");
    let (cap, keypair) = signed_capability(&provider);
    let mut registry = CapabilityRegistry::new();

    let publish = publish_request(b"alice", b"phone", cap, &keypair);
    let publish_response =
        process_publish(&mut registry, publish, 7, &provider).expect("publish");
    assert_eq!(publish_response.version, 7);

    let request = CapabilityFetchRequest {
        keys: vec![CapabilityFetchKey {
            user_id: VLBytes::new(b"alice".to_vec()),
            device_id: VLBytes::new(b"phone".to_vec()),
        }],
    };
    let fetch_response = process_fetch(&registry, &request, |_, _| 7);
    assert_eq!(fetch_response.entries.len(), 1);
    let fetched = fetch_response.entries[0]
        .capability
        .as_ref()
        .expect("must be present after publish");
    fetched
        .verify(
            classical_cs().signature_algorithm(),
            keypair.public(),
            &provider,
        )
        .expect("verify");

    let notification = build_update_notification(
        publish_response.user_id.as_slice().to_vec(),
        publish_response.device_id.as_slice().to_vec(),
        publish_response.version,
    );
    assert_eq!(notification.version, 7);
}
