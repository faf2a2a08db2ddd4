//! The crypto provider.
use kchat_mls::crypto::CryptoProvider;
use kchat_mls::types::{Ciphersuite, CryptoError, SignatureScheme};

#[test]
fn test_xwing_gated_by_feature() {
    let provider = CryptoProvider::new().expect("crypto provider");
    assert_eq!(
        provider.supports(Ciphersuite::MLS_256_XWING_CHACHA20POLY1305_SHA256_Ed25519),
        Err(CryptoError::UnsupportedCiphersuite),
        "X-Wing must not be supported when the `xwing` feature is disabled",
    );
    let suites = provider.supported_ciphersuites();
    assert!(
        !suites.contains(&Ciphersuite::MLS_256_XWING_CHACHA20POLY1305_SHA256_Ed25519),
        "supported_ciphersuites() must not list X-Wing without `xwing` feature, got {suites:?}",
    );
}

#[test]
fn test_classical_chacha20_supported_regardless_of_xwing() {
    let provider = CryptoProvider::new().expect("crypto provider");
    assert_eq!(
        provider.supports(Ciphersuite::MLS_128_DHKEMX25519_CHACHA20POLY1305_SHA256_Ed25519),
        Ok(()),
        "libcrux provider must support classical ChaCha20Poly1305 ciphersuite",
    );
}

#[test]
fn test_libcrux_rejects_mldsa() {
    let provider = CryptoProvider::new().expect("crypto provider");
    for scheme in [
        SignatureScheme::MLDSA44,
        SignatureScheme::MLDSA65,
        SignatureScheme::MLDSA87,
    ] {
        assert_eq!(
            provider.signature_key_gen(scheme).err(),
            Some(CryptoError::UnsupportedSignatureScheme),
            "libcrux provider must not implement ML-DSA scheme {scheme:?}"
        );
    }
}
