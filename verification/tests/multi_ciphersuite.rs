//! A key package for each suite of a device.
use kchat_mls::credentials::device_capability::DeviceCapability;
use kchat_mls::crypto::CryptoProvider;
use kchat_mls::key_packages::multi_ciphersuite::{
    unique_ciphersuites, MultiCiphersuiteError, MultiCiphersuiteKeyPackages,
};
use kchat_mls::mls::{KeyPackage, KeyPackageBundle};
use kchat_mls::types::{Ciphersuite, SignatureScheme};

fn build(cs: Ciphersuite) -> Result<KeyPackageBundle, String> {
    let provider = CryptoProvider::new().map_err(|e| format!("{e:?}"))?;
    let (private, public) = provider
        .signature_key_gen(SignatureScheme::ED25519)
        .map_err(|e| format!("{e:?}"))?;
    Ok(KeyPackageBundle {
        key_package: KeyPackage::new(cs, public),
        private_keys: private,
    })
}

fn classical_capability() -> DeviceCapability {
    DeviceCapability::new(
        1,
        vec![
            Ciphersuite::MLS_128_DHKEMX25519_AES128GCM_SHA256_Ed25519,
            Ciphersuite::MLS_128_DHKEMX25519_CHACHA20POLY1305_SHA256_Ed25519,
        ],
        vec![],
        false,
        false,
        "rustcrypto".into(),
    )
}

fn empty_capability() -> DeviceCapability {
    DeviceCapability::new(1, vec![], vec![], false, false, "rustcrypto".into())
}

fn capability_with_n_ciphersuites(n: usize) -> DeviceCapability {
    let all = [
        Ciphersuite::MLS_128_DHKEMX25519_AES128GCM_SHA256_Ed25519,
        Ciphersuite::MLS_128_DHKEMP256_AES128GCM_SHA256_P256,
        Ciphersuite::MLS_128_DHKEMX25519_CHACHA20POLY1305_SHA256_Ed25519,
        Ciphersuite::MLS_256_DHKEMX448_AES256GCM_SHA512_Ed448,
        Ciphersuite::MLS_256_DHKEMP521_AES256GCM_SHA512_P521,
        Ciphersuite::MLS_256_DHKEMX448_CHACHA20POLY1305_SHA512_Ed448,
        Ciphersuite::MLS_256_DHKEMP384_AES256GCM_SHA384_P384,
        Ciphersuite::MLS_256_XWING_CHACHA20POLY1305_SHA256_Ed25519,
    ];
    let take = n.min(all.len());
    let classical = all[..take.saturating_sub(1)].to_vec();
    let pq = if take > 0 {
        vec![all[take - 1]]
    } else {
        vec![]
    };
    DeviceCapability::new(1, classical, pq, true, false, "libcrux".into())
}

#[test]
fn unique_ciphersuites_dedupes_classical_and_pq() {
    let mut cap = classical_capability();
    cap.pq_ciphersuites = vec![Ciphersuite::MLS_128_DHKEMX25519_AES128GCM_SHA256_Ed25519];
    let suites = unique_ciphersuites(&cap);
    assert_eq!(suites.len(), 2);
}

#[test]
fn empty_capability_returns_no_ciphersuites_error() {
    let cap = empty_capability();
    let result = MultiCiphersuiteKeyPackages::generate_for_capability(&cap, build);
    match result {
        Err(MultiCiphersuiteError::NoCiphersuites) => {}
        other => panic!("expected NoCiphersuites, got {other:?}"),
    }
}

#[test]
fn generates_classical_key_packages_with_rust_crypto() {
    let cap = classical_capability();
    let bundle = MultiCiphersuiteKeyPackages::generate_for_capability(&cap, build)
    .expect("generate succeeded");

    assert_eq!(bundle.len(), 2);
    for cs in &cap.classical_ciphersuites {
        assert!(
            bundle.get_for_ciphersuite(*cs).is_some(),
            "missing key package for {cs:?}"
        );
    }
}

#[test]
fn classical_and_pq_filtered_views() {
    let cap = classical_capability();
    let bundle = MultiCiphersuiteKeyPackages::generate_for_capability(&cap, build)
    .expect("generate succeeded");

    assert_eq!(bundle.classical_packages().len(), 2);
    assert_eq!(bundle.pq_packages().len(), 0);
}

#[test]
fn rejects_capability_above_per_device_cap() {
    let cap = capability_with_n_ciphersuites(3);
    let result = MultiCiphersuiteKeyPackages::generate_for_capability_with_cap(&cap, build, 2);
    match result {
        Err(MultiCiphersuiteError::TooManyCiphersuites {
            requested,
            cap: cap_value,
        }) => {
            assert_eq!(cap_value, 2);
            assert_eq!(requested, 3);
        }
        other => panic!("expected TooManyCiphersuites, got {other:?}"),
    }
}

#[test]
fn all_ciphersuites_matches_packages_keys() {
    let cap = classical_capability();
    let bundle = MultiCiphersuiteKeyPackages::generate_for_capability(&cap, build)
    .expect("generate succeeded");

    let mut suites = bundle.all_ciphersuites();
    suites.sort_by_key(|cs| cs.codepoint());
    let mut expected = cap.classical_ciphersuites.clone();
    expected.sort_by_key(|cs| cs.codepoint());
    assert_eq!(suites, expected);
}

#[test]
fn key_package_accessor_returns_underlying_package() {
    let cap = classical_capability();
    let bundle = MultiCiphersuiteKeyPackages::generate_for_capability(&cap, build)
    .expect("generate succeeded");
    let cs = Ciphersuite::MLS_128_DHKEMX25519_AES128GCM_SHA256_Ed25519;
    let kp = bundle.key_package(cs).expect("kp present");
    assert_eq!(kp.ciphersuite(), cs);
}

