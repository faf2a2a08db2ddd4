//! The primitives on published values, and what they undo.
use kchat_mls::crypto::{
    derive_outcome, hpke_aead, hpke_config, hpke_kdf, hpke_kem, key_gen_outcome, open_outcome,
    receive_export_outcome, seal_outcome, send_export_outcome, CryptoProvider, ExportFailure,
    HpkeCiphertext, HpkeFailure, HpkeIds, KeyGenFailure,
};
use kchat_mls::types::{
    AeadType, Ciphersuite, CryptoError, HashType, HpkeAeadType, HpkeConfig, HpkeKdfType,
    HpkeKemType, SignatureScheme,
};

fn provider() -> CryptoProvider {
    CryptoProvider::new().expect("crypto provider")
}

fn hex(text: &str) -> Vec<u8> {
    (0..text.len() / 2)
        .map(|i| u8::from_str_radix(&text[2 * i..2 * i + 2], 16).expect("hex"))
        .collect()
}

fn x25519() -> HpkeConfig {
    HpkeConfig(
        HpkeKemType::DhKem25519,
        HpkeKdfType::HkdfSha256,
        HpkeAeadType::AesGcm128,
    )
}

#[test]
fn digests_are_those_of_sha2() {
    let crypto = provider();
    assert_eq!(
        crypto.hash(HashType::Sha2_256, b"abc").unwrap(),
        hex("ba7816bf8f01cfea414140de5dae2223b00361a396177a9cb410ff61f20015ad")
    );
    assert_eq!(
        crypto.hash(HashType::Sha2_384, b"abc").unwrap(),
        hex("cb00753f45a35e8bb5a03d699ac65007272c32ab0eded1631a8b605a43ff5bed8086072ba1e7cc2358baeca134c825a7")
    );
    assert_eq!(
        crypto.hash(HashType::Sha2_512, b"abc").unwrap(),
        hex("ddaf35a193617abacc417349ae20413112e6fa4e89a97ea20a9eeee64b55d39a2192992a274fc1a836ba3c23a3feebbd454d4423643ce80e2a9ac94fa54ca49f")
    );
}

#[test]
fn hmac_is_that_of_sha256() {
    let tag = provider()
        .hmac(HashType::Sha2_256, b"Jefe", b"what do ya want for nothing?")
        .unwrap();
    assert_eq!(
        tag.as_slice(),
        hex("5bdcc146bf60754e6a042426089575c75a003f089d2739839dec58b964ec3843").as_slice()
    );
}

#[test]
fn hkdf_extracts_and_expands() {
    let crypto = provider();
    let ikm = vec![0x0b; 22];
    let salt = hex("000102030405060708090a0b0c");
    let info = hex("f0f1f2f3f4f5f6f7f8f9");
    let prk = crypto
        .hkdf_extract(HashType::Sha2_256, &salt, &ikm)
        .unwrap();
    assert_eq!(
        prk.as_slice(),
        hex("077709362c2e32df0ddc3f0dc47bba6390b6c73bb50f9c3122ec844ad7c2b3e5").as_slice()
    );
    let okm = crypto
        .hkdf_expand(HashType::Sha2_256, prk.as_slice(), &info, 42)
        .unwrap();
    assert_eq!(
        okm.as_slice(),
        hex("3cb25f25faacd57a90434f64d0362f2a2d2d0a90cf1a5a4c5db02d56ecc4c5bf34007208d5b887185865")
            .as_slice()
    );
}

#[test]
fn hkdf_refuses_lengths() {
    let crypto = provider();
    assert_eq!(
        crypto
            .hkdf_expand(HashType::Sha2_256, &[0; 32], b"", 255 * 32 + 1)
            .err(),
        Some(CryptoError::HkdfOutputLengthInvalid)
    );
    assert_eq!(
        crypto
            .hkdf_expand(HashType::Sha2_384, &[0; 47], b"", 1)
            .err(),
        Some(CryptoError::InvalidLength)
    );
}

#[test]
fn aes_gcm_seals_the_zero_block() {
    let crypto = provider();
    let sealed = crypto
        .aead_encrypt(AeadType::Aes128Gcm, &[0; 16], &[0; 16], &[0; 12], &[])
        .unwrap();
    assert_eq!(
        sealed,
        hex("0388dace60b6a392f328c2b971b2fe78ab6e47d42cec13bdf53a67b21257bddf")
    );
}

#[test]
fn aeads_open_what_they_seal() {
    let crypto = provider();
    for (alg, key_len) in [
        (AeadType::Aes128Gcm, 16),
        (AeadType::Aes256Gcm, 32),
        (AeadType::ChaCha20Poly1305, 32),
    ] {
        let key = vec![7u8; key_len];
        let nonce = [3u8; 12];
        let mut sealed = crypto
            .aead_encrypt(alg, &key, b"hello", &nonce, b"aad")
            .unwrap();
        assert_eq!(sealed.len(), 21);
        assert_eq!(
            crypto.aead_decrypt(alg, &key, &sealed, &nonce, b"aad"),
            Ok(b"hello".to_vec())
        );
        assert_eq!(
            crypto.aead_decrypt(alg, &key, &sealed, &nonce, b"other"),
            Err(CryptoError::AeadDecryptionError)
        );
        sealed[0] ^= 1;
        assert_eq!(
            crypto.aead_decrypt(alg, &key, &sealed, &nonce, b"aad"),
            Err(CryptoError::AeadDecryptionError)
        );
    }
}

#[test]
fn aeads_refuse_lengths() {
    let crypto = provider();
    let alg = AeadType::Aes128Gcm;
    let invalid = Err(CryptoError::InvalidLength);
    assert_eq!(crypto.aead_encrypt(alg, &[0; 15], b"", &[0; 12], b""), invalid);
    assert_eq!(crypto.aead_encrypt(alg, &[0; 16], b"", &[0; 11], b""), invalid);
    assert_eq!(crypto.aead_decrypt(alg, &[0; 16], &[0; 15], &[0; 12], b""), invalid);
    assert_eq!(crypto.aead_decrypt(alg, &[0; 32], &[0; 16], &[0; 12], b""), invalid);
    assert_eq!(crypto.aead_decrypt(alg, &[0; 16], &[0; 16], &[0; 13], b""), invalid);
}

#[test]
fn ed25519_signs_the_empty_message() {
    let crypto = provider();
    let key = hex("9d61b19deffd5a60ba844af492ec2cc44449c5697b326919703bac031cae7f60");
    let public = hex("d75a980182b10ab7d54bfed3c964073a0ee172f3daa62325af021a68f707511a");
    let signature = crypto.sign(SignatureScheme::ED25519, b"", &key).unwrap();
    assert_eq!(
        signature,
        hex("e5564300c360ac729086e2cc806e828a84877f1eb8e5d974d873e065224901555fb8821590a33bacc61e39701cf9b46bd25bf5f0595bbe24655141438e7a100b")
    );
    let scheme = SignatureScheme::ED25519;
    assert_eq!(crypto.verify_signature(scheme, b"", &public, &signature), Ok(()));
    assert_eq!(
        crypto.verify_signature(scheme, b"x", &public, &signature),
        Err(CryptoError::InvalidSignature)
    );
}

#[test]
fn signatures_refuse_lengths_and_schemes() {
    let crypto = provider();
    let ed = SignatureScheme::ED25519;
    assert_eq!(crypto.sign(ed, b"", &[0; 31]), Err(CryptoError::InvalidLength));
    assert_eq!(
        crypto.verify_signature(ed, b"", &[0; 31], &[0; 64]),
        Err(CryptoError::InvalidLength)
    );
    assert_eq!(
        crypto.verify_signature(ed, b"", &[0; 32], &[0; 63]),
        Err(CryptoError::InvalidLength)
    );
    let other = SignatureScheme::ED448;
    assert_eq!(
        crypto.sign(other, b"", &[0; 32]),
        Err(CryptoError::UnsupportedSignatureScheme)
    );
    assert_eq!(
        crypto.verify_signature(other, b"", &[0; 32], &[0; 64]),
        Err(CryptoError::UnsupportedSignatureScheme)
    );
}

#[test]
fn generated_keys_sign_and_differ() {
    let crypto = provider();
    let scheme = SignatureScheme::ED25519;
    let (key, public) = crypto.signature_key_gen(scheme).unwrap();
    let (other, _) = crypto.signature_key_gen(scheme).unwrap();
    assert_ne!(key, other);
    let signature = crypto.sign(scheme, b"data", &key).unwrap();
    assert_eq!(crypto.verify_signature(scheme, b"data", &public, &signature), Ok(()));
}

#[test]
fn hpke_derives_the_published_pair() {
    let ikm = hex("6db9df30aa07dd42ee5e8181afdb977e538f5e1fec8a06223f33f7013e525037");
    let pair = provider().derive_hpke_keypair(x25519(), &ikm).unwrap();
    assert_eq!(
        pair.private.as_slice(),
        hex("4612c550263fc8ad58375df3f557aac531d26850903e55a9f23f21d8534e8ac8").as_slice()
    );
    assert_eq!(
        pair.public,
        hex("3948cfe0ad1ddb695d780e59077195da6c56506b027329794ab02bca80815c4d")
    );
}

#[test]
fn hpke_opens_what_it_seals() {
    let crypto = provider();
    let pair = crypto.derive_hpke_keypair(x25519(), &[9; 32]).unwrap();
    let sealed = crypto
        .hpke_seal(x25519(), &pair.public, b"info", b"aad", b"plaintext")
        .unwrap();
    let private = pair.private.as_slice();
    assert_eq!(
        crypto.hpke_open(x25519(), &sealed, private, b"info", b"aad"),
        Ok(b"plaintext".to_vec())
    );
    assert_eq!(
        crypto.hpke_open(x25519(), &sealed, private, b"other", b"aad"),
        Err(CryptoError::HpkeDecryptionError)
    );
}

#[test]
fn hpke_exports_agree() {
    let crypto = provider();
    let pair = crypto.derive_hpke_keypair(x25519(), &[5; 32]).unwrap();
    let (enc, sent) = crypto
        .hpke_setup_sender_and_export(x25519(), &pair.public, b"info", b"context", 48)
        .unwrap();
    let received = crypto
        .hpke_setup_receiver_and_export(
            x25519(),
            &enc,
            pair.private.as_slice(),
            b"info",
            b"context",
            48,
        )
        .unwrap();
    assert_eq!(sent.as_slice().len(), 48);
    assert_eq!(sent.as_slice(), received.as_slice());
}

#[test]
fn hpke_refuses_draft_kems() {
    let crypto = provider();
    let config = HpkeConfig(
        HpkeKemType::XWingKemDraft6,
        HpkeKdfType::HkdfSha256,
        HpkeAeadType::ChaCha20Poly1305,
    );
    let refused = Some(CryptoError::UnsupportedCiphersuite);
    let input = HpkeCiphertext {
        kem_output: vec![],
        ciphertext: vec![],
    };
    assert_eq!(crypto.hpke_seal(config, b"", b"", b"", b"").err(), refused);
    assert_eq!(crypto.hpke_open(config, &input, b"", b"", b"").err(), refused);
    assert_eq!(crypto.derive_hpke_keypair(config, b"").err(), refused);
    assert_eq!(
        crypto
            .hpke_setup_sender_and_export(config, b"", b"", b"", 1)
            .err(),
        refused
    );
    assert_eq!(
        crypto
            .hpke_setup_receiver_and_export(config, b"", b"", b"", b"", 1)
            .err(),
        refused
    );
}

#[test]
fn hpke_identifiers_are_the_registered_ones() {
    assert_eq!(hpke_kem(HpkeKemType::DhKemP256), Ok(0x0010));
    assert_eq!(hpke_kem(HpkeKemType::DhKemP384), Ok(0x0011));
    assert_eq!(hpke_kem(HpkeKemType::DhKemP521), Ok(0x0012));
    assert_eq!(hpke_kem(HpkeKemType::DhKem448), Ok(0x0021));
    assert_eq!(hpke_kdf(HpkeKdfType::HkdfSha512), 3);
    assert_eq!(hpke_aead(HpkeAeadType::Export), 0xffff);
    assert_eq!(
        hpke_config(x25519()),
        Ok(HpkeIds {
            kem: 0x0020,
            kdf: 1,
            aead: 1
        })
    );
    assert_eq!(
        hpke_kem(HpkeKemType::MlKem768Draft),
        Err(CryptoError::UnsupportedCiphersuite)
    );
}

#[test]
fn supported_suites_need_ed25519_and_chacha() {
    let crypto = provider();
    for cs in [
        Ciphersuite::MLS_128_DHKEMX25519_AES128GCM_SHA256_Ed25519,
        Ciphersuite::MLS_128_DHKEMP256_AES128GCM_SHA256_P256,
        Ciphersuite::MLS_256_DHKEMX448_CHACHA20POLY1305_SHA512_Ed448,
    ] {
        assert_eq!(crypto.supports(cs), Err(CryptoError::UnsupportedCiphersuite));
    }
    assert_eq!(
        crypto.supported_ciphersuites(),
        vec![
            Ciphersuite::MLS_128_DHKEMX25519_AES128GCM_SHA256_Ed25519,
            Ciphersuite::MLS_128_DHKEMX25519_CHACHA20POLY1305_SHA256_Ed25519,
        ]
    );
}

#[test]
fn outcomes_keep_their_errors_apart() {
    assert_eq!(
        key_gen_outcome(Err(KeyGenFailure::Lock)),
        Err(CryptoError::CryptoLibraryError)
    );
    assert_eq!(
        key_gen_outcome(Err(KeyGenFailure::KeyGen)),
        Err(CryptoError::SigningError)
    );
    assert_eq!(
        seal_outcome(Err(HpkeFailure::InvalidConfig)).err(),
        Some(CryptoError::SenderSetupError)
    );
    assert_eq!(
        seal_outcome(Err(HpkeFailure::Other)).err(),
        Some(CryptoError::HpkeEncryptionError)
    );
    assert_eq!(
        open_outcome(Err(HpkeFailure::InvalidConfig)),
        Err(CryptoError::ReceiverSetupError)
    );
    assert_eq!(
        send_export_outcome(Err(ExportFailure::Setup)).err(),
        Some(CryptoError::SenderSetupError)
    );
    assert_eq!(
        send_export_outcome(Err(ExportFailure::Export)).err(),
        Some(CryptoError::ExporterError)
    );
    assert_eq!(
        receive_export_outcome(Err(ExportFailure::Setup)).err(),
        Some(CryptoError::ReceiverSetupError)
    );
    assert_eq!(
        derive_outcome(Err(HpkeFailure::InvalidConfig)).err(),
        Some(CryptoError::InvalidLength)
    );
    assert_eq!(
        derive_outcome(Err(HpkeFailure::Other)).err(),
        Some(CryptoError::CryptoLibraryError)
    );
}
