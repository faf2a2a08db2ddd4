//! Algorithm identifiers and the plain values that describe MLS objects.
use crate::assoc::MapKey;
use crate::bytes::{bytes_equal, copy_bytes};
use vstd::prelude::*;

verus! {

/// An MLS ciphersuite.
#[allow(non_camel_case_types)]
#[derive(Debug, Clone, Copy, PartialEq, Eq, Hash, Structural)]
pub enum Ciphersuite {
    /// Codepoint `0x0001`.
    MLS_128_DHKEMX25519_AES128GCM_SHA256_Ed25519,
    /// Codepoint `0x0002`.
    MLS_128_DHKEMP256_AES128GCM_SHA256_P256,
    /// Codepoint `0x0003`.
    MLS_128_DHKEMX25519_CHACHA20POLY1305_SHA256_Ed25519,
    /// Codepoint `0x0004`.
    MLS_256_DHKEMX448_AES256GCM_SHA512_Ed448,
    /// Codepoint `0x0005`.
    MLS_256_DHKEMP521_AES256GCM_SHA512_P521,
    /// Codepoint `0x0006`.
    MLS_256_DHKEMX448_CHACHA20POLY1305_SHA512_Ed448,
    /// Codepoint `0x0007`.
    MLS_256_DHKEMP384_AES256GCM_SHA384_P384,
    /// Codepoint `0x004D`.
    MLS_256_XWING_CHACHA20POLY1305_SHA256_Ed25519,
    /// Codepoint `0xFE01`.
    MLS_256_MLKEM768_X25519_AES256GCM_SHA384_Ed25519,
    /// Codepoint `0xFE02`.
    MLS_256_MLKEM768_X25519_CHACHA20POLY1305_SHA256_Ed25519,
    /// Codepoint `0xFE03`.
    MLS_256_MLKEM1024_AES256GCM_SHA512_Ed448,
    /// Codepoint `0xFE04`.
    MLS_256_MLKEM768_AES256GCM_SHA384_Ed25519,
    /// Codepoint `0xFE05`.
    MLS_256_MLKEM768_X25519_AES256GCM_SHA384_MLDSA65,
    /// Codepoint `0xFE06`.
    MLS_256_MLKEM768_AES256GCM_SHA384_MLDSA65,
}

/// A signature scheme.
#[allow(non_camel_case_types)]
#[derive(Debug, Clone, Copy, PartialEq, Eq, Hash, Structural)]
pub enum SignatureScheme {
    /// Codepoint `0x0403`.
    ECDSA_SECP256R1_SHA256,
    /// Codepoint `0x0503`.
    ECDSA_SECP384R1_SHA384,
    /// Codepoint `0x0603`.
    ECDSA_SECP521R1_SHA512,
    /// Codepoint `0x0807`.
    ED25519,
    /// Codepoint `0x0808`.
    ED448,
    /// Codepoint `0x0904`.
    MLDSA44,
    /// Codepoint `0x0905`.
    MLDSA65,
    /// Codepoint `0x0906`.
    MLDSA87,
}

/// The KEM of an HPKE configuration.
#[derive(Debug, Clone, Copy, PartialEq, Eq, Hash, Structural)]
pub enum HpkeKemType {
    /// DH KEM on P256.
    DhKemP256,
    /// DH KEM on P384.
    DhKemP384,
    /// DH KEM on P521.
    DhKemP521,
    /// DH KEM on x25519.
    DhKem25519,
    /// DH KEM on x448.
    DhKem448,
    /// X-Wing combiner for ML-KEM and X25519 (draft 6).
    XWingKemDraft6,
    /// ML-KEM-768 with X25519 (draft).
    MlKem768X25519Draft,
    /// ML-KEM-768 (draft).
    MlKem768Draft,
    /// ML-KEM-1024 (draft).
    MlKem1024Draft,
}

/// The KDF of an HPKE configuration.
#[derive(Debug, Clone, Copy, PartialEq, Eq, Hash, Structural)]
pub enum HpkeKdfType {
    /// HKDF SHA 256.
    HkdfSha256,
    /// HKDF SHA 384.
    HkdfSha384,
    /// HKDF SHA 512.
    HkdfSha512,
}

/// The AEAD of an HPKE configuration.
#[derive(Debug, Clone, Copy, PartialEq, Eq, Hash, Structural)]
pub enum HpkeAeadType {
    /// AES GCM 128.
    AesGcm128,
    /// AES GCM 256.
    AesGcm256,
    /// ChaCha20 Poly1305.
    ChaCha20Poly1305,
    /// Export-only.
    Export,
}

/// An HPKE configuration: KEM, KDF and AEAD.
#[derive(Debug, Clone, Copy, PartialEq, Eq, Structural)]
pub struct HpkeConfig(pub HpkeKemType, pub HpkeKdfType, pub HpkeAeadType);

/// An AEAD algorithm.
#[derive(Debug, Clone, Copy, PartialEq, Eq, Hash, Structural)]
pub enum AeadType {
    /// AES GCM 128.
    Aes128Gcm,
    /// AES GCM 256.
    Aes256Gcm,
    /// ChaCha20 Poly1305.
    ChaCha20Poly1305,
}

/// A hash algorithm.
#[derive(Debug, Clone, Copy, PartialEq, Eq, Hash, Structural)]
pub enum HashType {
    /// SHA 256.
    Sha2_256,
    /// SHA 384.
    Sha2_384,
    /// SHA 512.
    Sha2_512,
}

/// What a cryptographic operation can fail with.
#[derive(Debug, Clone, Copy, PartialEq, Eq, Structural)]
pub enum CryptoError {
    /// The underlying library failed.
    CryptoLibraryError,
    /// AEAD decryption failed.
    AeadDecryptionError,
    /// HPKE decryption failed.
    HpkeDecryptionError,
    /// HPKE encryption failed.
    HpkeEncryptionError,
    /// The signature scheme is not supported.
    UnsupportedSignatureScheme,
    /// The HKDF output length is not one the hash allows.
    HkdfOutputLengthInvalid,
    /// Not enough randomness could be had.
    InsufficientRandomness,
    /// The signature does not verify.
    InvalidSignature,
    /// The ciphersuite is not supported.
    UnsupportedCiphersuite,
    /// Setting up the HPKE sender failed.
    SenderSetupError,
    /// Setting up the HPKE receiver failed.
    ReceiverSetupError,
    /// Exporting a secret failed.
    ExporterError,
    /// An argument has a length that the operation does not take.
    InvalidLength,
    /// Signing failed.
    SigningError,
}

/// The codepoint of a ciphersuite.
pub open spec fn ciphersuite_codepoint(cs: Ciphersuite) -> u16 {
    match cs {
        Ciphersuite::MLS_128_DHKEMX25519_AES128GCM_SHA256_Ed25519 => 0x0001,
        Ciphersuite::MLS_128_DHKEMP256_AES128GCM_SHA256_P256 => 0x0002,
        Ciphersuite::MLS_128_DHKEMX25519_CHACHA20POLY1305_SHA256_Ed25519 => 0x0003,
        Ciphersuite::MLS_256_DHKEMX448_AES256GCM_SHA512_Ed448 => 0x0004,
        Ciphersuite::MLS_256_DHKEMP521_AES256GCM_SHA512_P521 => 0x0005,
        Ciphersuite::MLS_256_DHKEMX448_CHACHA20POLY1305_SHA512_Ed448 => 0x0006,
        Ciphersuite::MLS_256_DHKEMP384_AES256GCM_SHA384_P384 => 0x0007,
        Ciphersuite::MLS_256_XWING_CHACHA20POLY1305_SHA256_Ed25519 => 0x004D,
        Ciphersuite::MLS_256_MLKEM768_X25519_AES256GCM_SHA384_Ed25519 => 0xFE01,
        Ciphersuite::MLS_256_MLKEM768_X25519_CHACHA20POLY1305_SHA256_Ed25519 => 0xFE02,
        Ciphersuite::MLS_256_MLKEM1024_AES256GCM_SHA512_Ed448 => 0xFE03,
        Ciphersuite::MLS_256_MLKEM768_AES256GCM_SHA384_Ed25519 => 0xFE04,
        Ciphersuite::MLS_256_MLKEM768_X25519_AES256GCM_SHA384_MLDSA65 => 0xFE05,
        Ciphersuite::MLS_256_MLKEM768_AES256GCM_SHA384_MLDSA65 => 0xFE06,
    }
}

/// The name of a ciphersuite, as written in its variant.
pub open spec fn ciphersuite_name(cs: Ciphersuite) -> Seq<char> {
    match cs {
        Ciphersuite::MLS_128_DHKEMX25519_AES128GCM_SHA256_Ed25519 => "MLS_128_DHKEMX25519_AES128GCM_SHA256_Ed25519"@,
        Ciphersuite::MLS_128_DHKEMP256_AES128GCM_SHA256_P256 => "MLS_128_DHKEMP256_AES128GCM_SHA256_P256"@,
        Ciphersuite::MLS_128_DHKEMX25519_CHACHA20POLY1305_SHA256_Ed25519 => "MLS_128_DHKEMX25519_CHACHA20POLY1305_SHA256_Ed25519"@,
        Ciphersuite::MLS_256_DHKEMX448_AES256GCM_SHA512_Ed448 => "MLS_256_DHKEMX448_AES256GCM_SHA512_Ed448"@,
        Ciphersuite::MLS_256_DHKEMP521_AES256GCM_SHA512_P521 => "MLS_256_DHKEMP521_AES256GCM_SHA512_P521"@,
        Ciphersuite::MLS_256_DHKEMX448_CHACHA20POLY1305_SHA512_Ed448 => "MLS_256_DHKEMX448_CHACHA20POLY1305_SHA512_Ed448"@,
        Ciphersuite::MLS_256_DHKEMP384_AES256GCM_SHA384_P384 => "MLS_256_DHKEMP384_AES256GCM_SHA384_P384"@,
        Ciphersuite::MLS_256_XWING_CHACHA20POLY1305_SHA256_Ed25519 => "MLS_256_XWING_CHACHA20POLY1305_SHA256_Ed25519"@,
        Ciphersuite::MLS_256_MLKEM768_X25519_AES256GCM_SHA384_Ed25519 => "MLS_256_MLKEM768_X25519_AES256GCM_SHA384_Ed25519"@,
        Ciphersuite::MLS_256_MLKEM768_X25519_CHACHA20POLY1305_SHA256_Ed25519 => "MLS_256_MLKEM768_X25519_CHACHA20POLY1305_SHA256_Ed25519"@,
        Ciphersuite::MLS_256_MLKEM1024_AES256GCM_SHA512_Ed448 => "MLS_256_MLKEM1024_AES256GCM_SHA512_Ed448"@,
        Ciphersuite::MLS_256_MLKEM768_AES256GCM_SHA384_Ed25519 => "MLS_256_MLKEM768_AES256GCM_SHA384_Ed25519"@,
        Ciphersuite::MLS_256_MLKEM768_X25519_AES256GCM_SHA384_MLDSA65 => "MLS_256_MLKEM768_X25519_AES256GCM_SHA384_MLDSA65"@,
        Ciphersuite::MLS_256_MLKEM768_AES256GCM_SHA384_MLDSA65 => "MLS_256_MLKEM768_AES256GCM_SHA384_MLDSA65"@,
    }
}

/// `true` for the suites whose codepoint is a draft or private-use one.
pub open spec fn ciphersuite_is_draft(cs: Ciphersuite) -> bool {
    ciphersuite_codepoint(cs) == 0x004D || 0xFE00 <= ciphersuite_codepoint(cs) <= 0xFEFF
}

/// The signature scheme of a ciphersuite.
pub open spec fn ciphersuite_signature(cs: Ciphersuite) -> SignatureScheme {
    match cs {
        Ciphersuite::MLS_128_DHKEMX25519_AES128GCM_SHA256_Ed25519 => SignatureScheme::ED25519,
        Ciphersuite::MLS_128_DHKEMP256_AES128GCM_SHA256_P256 => SignatureScheme::ECDSA_SECP256R1_SHA256,
        Ciphersuite::MLS_128_DHKEMX25519_CHACHA20POLY1305_SHA256_Ed25519 => SignatureScheme::ED25519,
        Ciphersuite::MLS_256_DHKEMX448_AES256GCM_SHA512_Ed448 => SignatureScheme::ED448,
        Ciphersuite::MLS_256_DHKEMP521_AES256GCM_SHA512_P521 => SignatureScheme::ECDSA_SECP521R1_SHA512,
        Ciphersuite::MLS_256_DHKEMX448_CHACHA20POLY1305_SHA512_Ed448 => SignatureScheme::ED448,
        Ciphersuite::MLS_256_DHKEMP384_AES256GCM_SHA384_P384 => SignatureScheme::ECDSA_SECP384R1_SHA384,
        Ciphersuite::MLS_256_XWING_CHACHA20POLY1305_SHA256_Ed25519 => SignatureScheme::ED25519,
        Ciphersuite::MLS_256_MLKEM768_X25519_AES256GCM_SHA384_Ed25519 => SignatureScheme::ED25519,
        Ciphersuite::MLS_256_MLKEM768_X25519_CHACHA20POLY1305_SHA256_Ed25519 => SignatureScheme::ED25519,
        Ciphersuite::MLS_256_MLKEM1024_AES256GCM_SHA512_Ed448 => SignatureScheme::ED448,
        Ciphersuite::MLS_256_MLKEM768_AES256GCM_SHA384_Ed25519 => SignatureScheme::ED25519,
        Ciphersuite::MLS_256_MLKEM768_X25519_AES256GCM_SHA384_MLDSA65 => SignatureScheme::MLDSA65,
        Ciphersuite::MLS_256_MLKEM768_AES256GCM_SHA384_MLDSA65 => SignatureScheme::MLDSA65,
    }
}

/// The AEAD of a ciphersuite.
pub open spec fn ciphersuite_aead(cs: Ciphersuite) -> AeadType {
    match cs {
        Ciphersuite::MLS_128_DHKEMX25519_AES128GCM_SHA256_Ed25519 => AeadType::Aes128Gcm,
        Ciphersuite::MLS_128_DHKEMP256_AES128GCM_SHA256_P256 => AeadType::Aes128Gcm,
        Ciphersuite::MLS_128_DHKEMX25519_CHACHA20POLY1305_SHA256_Ed25519 => AeadType::ChaCha20Poly1305,
        Ciphersuite::MLS_256_DHKEMX448_AES256GCM_SHA512_Ed448 => AeadType::Aes256Gcm,
        Ciphersuite::MLS_256_DHKEMP521_AES256GCM_SHA512_P521 => AeadType::Aes256Gcm,
        Ciphersuite::MLS_256_DHKEMX448_CHACHA20POLY1305_SHA512_Ed448 => AeadType::ChaCha20Poly1305,
        Ciphersuite::MLS_256_DHKEMP384_AES256GCM_SHA384_P384 => AeadType::Aes256Gcm,
        Ciphersuite::MLS_256_XWING_CHACHA20POLY1305_SHA256_Ed25519 => AeadType::ChaCha20Poly1305,
        Ciphersuite::MLS_256_MLKEM768_X25519_AES256GCM_SHA384_Ed25519 => AeadType::Aes256Gcm,
        Ciphersuite::MLS_256_MLKEM768_X25519_CHACHA20POLY1305_SHA256_Ed25519 => AeadType::ChaCha20Poly1305,
        Ciphersuite::MLS_256_MLKEM1024_AES256GCM_SHA512_Ed448 => AeadType::Aes256Gcm,
        Ciphersuite::MLS_256_MLKEM768_AES256GCM_SHA384_Ed25519 => AeadType::Aes256Gcm,
        Ciphersuite::MLS_256_MLKEM768_X25519_AES256GCM_SHA384_MLDSA65 => AeadType::Aes256Gcm,
        Ciphersuite::MLS_256_MLKEM768_AES256GCM_SHA384_MLDSA65 => AeadType::Aes256Gcm,
    }
}

/// The hash of a ciphersuite.
pub open spec fn ciphersuite_hash(cs: Ciphersuite) -> HashType {
    match cs {
        Ciphersuite::MLS_128_DHKEMX25519_AES128GCM_SHA256_Ed25519 => HashType::Sha2_256,
        Ciphersuite::MLS_128_DHKEMP256_AES128GCM_SHA256_P256 => HashType::Sha2_256,
        Ciphersuite::MLS_128_DHKEMX25519_CHACHA20POLY1305_SHA256_Ed25519 => HashType::Sha2_256,
        Ciphersuite::MLS_256_DHKEMX448_AES256GCM_SHA512_Ed448 => HashType::Sha2_512,
        Ciphersuite::MLS_256_DHKEMP521_AES256GCM_SHA512_P521 => HashType::Sha2_512,
        Ciphersuite::MLS_256_DHKEMX448_CHACHA20POLY1305_SHA512_Ed448 => HashType::Sha2_512,
        Ciphersuite::MLS_256_DHKEMP384_AES256GCM_SHA384_P384 => HashType::Sha2_384,
        Ciphersuite::MLS_256_XWING_CHACHA20POLY1305_SHA256_Ed25519 => HashType::Sha2_256,
        Ciphersuite::MLS_256_MLKEM768_X25519_AES256GCM_SHA384_Ed25519 => HashType::Sha2_384,
        Ciphersuite::MLS_256_MLKEM768_X25519_CHACHA20POLY1305_SHA256_Ed25519 => HashType::Sha2_256,
        Ciphersuite::MLS_256_MLKEM1024_AES256GCM_SHA512_Ed448 => HashType::Sha2_512,
        Ciphersuite::MLS_256_MLKEM768_AES256GCM_SHA384_Ed25519 => HashType::Sha2_384,
        Ciphersuite::MLS_256_MLKEM768_X25519_AES256GCM_SHA384_MLDSA65 => HashType::Sha2_384,
        Ciphersuite::MLS_256_MLKEM768_AES256GCM_SHA384_MLDSA65 => HashType::Sha2_384,
    }
}

/// The HPKE AEAD that goes with an AEAD.
pub open spec fn hpke_aead_of(aead: AeadType) -> HpkeAeadType {
    match aead {
        AeadType::Aes128Gcm => HpkeAeadType::AesGcm128,
        AeadType::Aes256Gcm => HpkeAeadType::AesGcm256,
        AeadType::ChaCha20Poly1305 => HpkeAeadType::ChaCha20Poly1305,
    }
}

/// The codepoint of a signature scheme.
pub open spec fn signature_codepoint(scheme: SignatureScheme) -> u16 {
    match scheme {
        SignatureScheme::ECDSA_SECP256R1_SHA256 => 0x0403,
        SignatureScheme::ECDSA_SECP384R1_SHA384 => 0x0503,
        SignatureScheme::ECDSA_SECP521R1_SHA512 => 0x0603,
        SignatureScheme::ED25519 => 0x0807,
        SignatureScheme::ED448 => 0x0808,
        SignatureScheme::MLDSA44 => 0x0904,
        SignatureScheme::MLDSA65 => 0x0905,
        SignatureScheme::MLDSA87 => 0x0906,
    }
}

/// `true` for the ML-DSA schemes.
pub open spec fn signature_is_post_quantum(scheme: SignatureScheme) -> bool {
    scheme is MLDSA44 || scheme is MLDSA65 || scheme is MLDSA87
}

/// `true` for the KEMs that stand for a draft or private-use codepoint.
pub open spec fn kem_is_draft(kem: HpkeKemType) -> bool {
    kem is XWingKemDraft6 || kem is MlKem768X25519Draft || kem is MlKem768Draft
        || kem is MlKem1024Draft
}

impl Ciphersuite {
    /// The codepoint on the wire.
    pub fn codepoint(self) -> (r: u16)
        ensures
            r == ciphersuite_codepoint(self),
    {
        match self {
            Ciphersuite::MLS_128_DHKEMX25519_AES128GCM_SHA256_Ed25519 => 0x0001,
            Ciphersuite::MLS_128_DHKEMP256_AES128GCM_SHA256_P256 => 0x0002,
            Ciphersuite::MLS_128_DHKEMX25519_CHACHA20POLY1305_SHA256_Ed25519 => 0x0003,
            Ciphersuite::MLS_256_DHKEMX448_AES256GCM_SHA512_Ed448 => 0x0004,
            Ciphersuite::MLS_256_DHKEMP521_AES256GCM_SHA512_P521 => 0x0005,
            Ciphersuite::MLS_256_DHKEMX448_CHACHA20POLY1305_SHA512_Ed448 => 0x0006,
            Ciphersuite::MLS_256_DHKEMP384_AES256GCM_SHA384_P384 => 0x0007,
            Ciphersuite::MLS_256_XWING_CHACHA20POLY1305_SHA256_Ed25519 => 0x004D,
            Ciphersuite::MLS_256_MLKEM768_X25519_AES256GCM_SHA384_Ed25519 => 0xFE01,
            Ciphersuite::MLS_256_MLKEM768_X25519_CHACHA20POLY1305_SHA256_Ed25519 => 0xFE02,
            Ciphersuite::MLS_256_MLKEM1024_AES256GCM_SHA512_Ed448 => 0xFE03,
            Ciphersuite::MLS_256_MLKEM768_AES256GCM_SHA384_Ed25519 => 0xFE04,
            Ciphersuite::MLS_256_MLKEM768_X25519_AES256GCM_SHA384_MLDSA65 => 0xFE05,
            Ciphersuite::MLS_256_MLKEM768_AES256GCM_SHA384_MLDSA65 => 0xFE06,
        }
    }

    /// The suite that has the codepoint `value`, if there is one.
    pub fn from_codepoint(value: u16) -> (r: Option<Ciphersuite>)
        ensures
            match r {
                Some(cs) => ciphersuite_codepoint(cs) == value,
                None => forall|cs: Ciphersuite| #[trigger] ciphersuite_codepoint(cs) != value,
            },
    {
        match value {
            0x0001 => Some(Ciphersuite::MLS_128_DHKEMX25519_AES128GCM_SHA256_Ed25519),
            0x0002 => Some(Ciphersuite::MLS_128_DHKEMP256_AES128GCM_SHA256_P256),
            0x0003 => Some(Ciphersuite::MLS_128_DHKEMX25519_CHACHA20POLY1305_SHA256_Ed25519),
            0x0004 => Some(Ciphersuite::MLS_256_DHKEMX448_AES256GCM_SHA512_Ed448),
            0x0005 => Some(Ciphersuite::MLS_256_DHKEMP521_AES256GCM_SHA512_P521),
            0x0006 => Some(Ciphersuite::MLS_256_DHKEMX448_CHACHA20POLY1305_SHA512_Ed448),
            0x0007 => Some(Ciphersuite::MLS_256_DHKEMP384_AES256GCM_SHA384_P384),
            0x004D => Some(Ciphersuite::MLS_256_XWING_CHACHA20POLY1305_SHA256_Ed25519),
            0xFE01 => Some(Ciphersuite::MLS_256_MLKEM768_X25519_AES256GCM_SHA384_Ed25519),
            0xFE02 => Some(Ciphersuite::MLS_256_MLKEM768_X25519_CHACHA20POLY1305_SHA256_Ed25519),
            0xFE03 => Some(Ciphersuite::MLS_256_MLKEM1024_AES256GCM_SHA512_Ed448),
            0xFE04 => Some(Ciphersuite::MLS_256_MLKEM768_AES256GCM_SHA384_Ed25519),
            0xFE05 => Some(Ciphersuite::MLS_256_MLKEM768_X25519_AES256GCM_SHA384_MLDSA65),
            0xFE06 => Some(Ciphersuite::MLS_256_MLKEM768_AES256GCM_SHA384_MLDSA65),
            _ => None,
        }
    }

    /// The suite's name.
    pub fn name(self) -> (r: &'static str)
        ensures
            r@ == ciphersuite_name(self),
    {
        match self {
            Ciphersuite::MLS_128_DHKEMX25519_AES128GCM_SHA256_Ed25519 => "MLS_128_DHKEMX25519_AES128GCM_SHA256_Ed25519",
            Ciphersuite::MLS_128_DHKEMP256_AES128GCM_SHA256_P256 => "MLS_128_DHKEMP256_AES128GCM_SHA256_P256",
            Ciphersuite::MLS_128_DHKEMX25519_CHACHA20POLY1305_SHA256_Ed25519 => "MLS_128_DHKEMX25519_CHACHA20POLY1305_SHA256_Ed25519",
            Ciphersuite::MLS_256_DHKEMX448_AES256GCM_SHA512_Ed448 => "MLS_256_DHKEMX448_AES256GCM_SHA512_Ed448",
            Ciphersuite::MLS_256_DHKEMP521_AES256GCM_SHA512_P521 => "MLS_256_DHKEMP521_AES256GCM_SHA512_P521",
            Ciphersuite::MLS_256_DHKEMX448_CHACHA20POLY1305_SHA512_Ed448 => "MLS_256_DHKEMX448_CHACHA20POLY1305_SHA512_Ed448",
            Ciphersuite::MLS_256_DHKEMP384_AES256GCM_SHA384_P384 => "MLS_256_DHKEMP384_AES256GCM_SHA384_P384",
            Ciphersuite::MLS_256_XWING_CHACHA20POLY1305_SHA256_Ed25519 => "MLS_256_XWING_CHACHA20POLY1305_SHA256_Ed25519",
            Ciphersuite::MLS_256_MLKEM768_X25519_AES256GCM_SHA384_Ed25519 => "MLS_256_MLKEM768_X25519_AES256GCM_SHA384_Ed25519",
            Ciphersuite::MLS_256_MLKEM768_X25519_CHACHA20POLY1305_SHA256_Ed25519 => "MLS_256_MLKEM768_X25519_CHACHA20POLY1305_SHA256_Ed25519",
            Ciphersuite::MLS_256_MLKEM1024_AES256GCM_SHA512_Ed448 => "MLS_256_MLKEM1024_AES256GCM_SHA512_Ed448",
            Ciphersuite::MLS_256_MLKEM768_AES256GCM_SHA384_Ed25519 => "MLS_256_MLKEM768_AES256GCM_SHA384_Ed25519",
            Ciphersuite::MLS_256_MLKEM768_X25519_AES256GCM_SHA384_MLDSA65 => "MLS_256_MLKEM768_X25519_AES256GCM_SHA384_MLDSA65",
            Ciphersuite::MLS_256_MLKEM768_AES256GCM_SHA384_MLDSA65 => "MLS_256_MLKEM768_AES256GCM_SHA384_MLDSA65",
        }
    }

    /// Returns `true` if the suite's codepoint is a draft or private-use one.
    pub fn is_draft_codepoint(self) -> (r: bool)
        ensures
            r == ciphersuite_is_draft(self),
    {
        let c: u16 = self.codepoint();
        c == 0x004D || (0xFE00 <= c && c <= 0xFEFF)
    }

    /// The suite's signature scheme.
    pub fn signature_algorithm(self) -> (r: SignatureScheme)
        ensures
            r == ciphersuite_signature(self),
    {
        match self {
            Ciphersuite::MLS_128_DHKEMX25519_AES128GCM_SHA256_Ed25519 => SignatureScheme::ED25519,
            Ciphersuite::MLS_128_DHKEMP256_AES128GCM_SHA256_P256 => SignatureScheme::ECDSA_SECP256R1_SHA256,
            Ciphersuite::MLS_128_DHKEMX25519_CHACHA20POLY1305_SHA256_Ed25519 => SignatureScheme::ED25519,
            Ciphersuite::MLS_256_DHKEMX448_AES256GCM_SHA512_Ed448 => SignatureScheme::ED448,
            Ciphersuite::MLS_256_DHKEMP521_AES256GCM_SHA512_P521 => SignatureScheme::ECDSA_SECP521R1_SHA512,
            Ciphersuite::MLS_256_DHKEMX448_CHACHA20POLY1305_SHA512_Ed448 => SignatureScheme::ED448,
            Ciphersuite::MLS_256_DHKEMP384_AES256GCM_SHA384_P384 => SignatureScheme::ECDSA_SECP384R1_SHA384,
            Ciphersuite::MLS_256_XWING_CHACHA20POLY1305_SHA256_Ed25519 => SignatureScheme::ED25519,
            Ciphersuite::MLS_256_MLKEM768_X25519_AES256GCM_SHA384_Ed25519 => SignatureScheme::ED25519,
            Ciphersuite::MLS_256_MLKEM768_X25519_CHACHA20POLY1305_SHA256_Ed25519 => SignatureScheme::ED25519,
            Ciphersuite::MLS_256_MLKEM1024_AES256GCM_SHA512_Ed448 => SignatureScheme::ED448,
            Ciphersuite::MLS_256_MLKEM768_AES256GCM_SHA384_Ed25519 => SignatureScheme::ED25519,
            Ciphersuite::MLS_256_MLKEM768_X25519_AES256GCM_SHA384_MLDSA65 => SignatureScheme::MLDSA65,
            Ciphersuite::MLS_256_MLKEM768_AES256GCM_SHA384_MLDSA65 => SignatureScheme::MLDSA65,
        }
    }

    /// The suite's AEAD.
    pub fn aead_algorithm(self) -> (r: AeadType)
        ensures
            r == ciphersuite_aead(self),
    {
        match self {
            Ciphersuite::MLS_128_DHKEMX25519_AES128GCM_SHA256_Ed25519 => AeadType::Aes128Gcm,
            Ciphersuite::MLS_128_DHKEMP256_AES128GCM_SHA256_P256 => AeadType::Aes128Gcm,
            Ciphersuite::MLS_128_DHKEMX25519_CHACHA20POLY1305_SHA256_Ed25519 => AeadType::ChaCha20Poly1305,
            Ciphersuite::MLS_256_DHKEMX448_AES256GCM_SHA512_Ed448 => AeadType::Aes256Gcm,
            Ciphersuite::MLS_256_DHKEMP521_AES256GCM_SHA512_P521 => AeadType::Aes256Gcm,
            Ciphersuite::MLS_256_DHKEMX448_CHACHA20POLY1305_SHA512_Ed448 => AeadType::ChaCha20Poly1305,
            Ciphersuite::MLS_256_DHKEMP384_AES256GCM_SHA384_P384 => AeadType::Aes256Gcm,
            Ciphersuite::MLS_256_XWING_CHACHA20POLY1305_SHA256_Ed25519 => AeadType::ChaCha20Poly1305,
            Ciphersuite::MLS_256_MLKEM768_X25519_AES256GCM_SHA384_Ed25519 => AeadType::Aes256Gcm,
            Ciphersuite::MLS_256_MLKEM768_X25519_CHACHA20POLY1305_SHA256_Ed25519 => AeadType::ChaCha20Poly1305,
            Ciphersuite::MLS_256_MLKEM1024_AES256GCM_SHA512_Ed448 => AeadType::Aes256Gcm,
            Ciphersuite::MLS_256_MLKEM768_AES256GCM_SHA384_Ed25519 => AeadType::Aes256Gcm,
            Ciphersuite::MLS_256_MLKEM768_X25519_AES256GCM_SHA384_MLDSA65 => AeadType::Aes256Gcm,
            Ciphersuite::MLS_256_MLKEM768_AES256GCM_SHA384_MLDSA65 => AeadType::Aes256Gcm,
        }
    }

    /// The suite's hash.
    pub fn hash_algorithm(self) -> (r: HashType)
        ensures
            r == ciphersuite_hash(self),
    {
        match self {
            Ciphersuite::MLS_128_DHKEMX25519_AES128GCM_SHA256_Ed25519 => HashType::Sha2_256,
            Ciphersuite::MLS_128_DHKEMP256_AES128GCM_SHA256_P256 => HashType::Sha2_256,
            Ciphersuite::MLS_128_DHKEMX25519_CHACHA20POLY1305_SHA256_Ed25519 => HashType::Sha2_256,
            Ciphersuite::MLS_256_DHKEMX448_AES256GCM_SHA512_Ed448 => HashType::Sha2_512,
            Ciphersuite::MLS_256_DHKEMP521_AES256GCM_SHA512_P521 => HashType::Sha2_512,
            Ciphersuite::MLS_256_DHKEMX448_CHACHA20POLY1305_SHA512_Ed448 => HashType::Sha2_512,
            Ciphersuite::MLS_256_DHKEMP384_AES256GCM_SHA384_P384 => HashType::Sha2_384,
            Ciphersuite::MLS_256_XWING_CHACHA20POLY1305_SHA256_Ed25519 => HashType::Sha2_256,
            Ciphersuite::MLS_256_MLKEM768_X25519_AES256GCM_SHA384_Ed25519 => HashType::Sha2_384,
            Ciphersuite::MLS_256_MLKEM768_X25519_CHACHA20POLY1305_SHA256_Ed25519 => HashType::Sha2_256,
            Ciphersuite::MLS_256_MLKEM1024_AES256GCM_SHA512_Ed448 => HashType::Sha2_512,
            Ciphersuite::MLS_256_MLKEM768_AES256GCM_SHA384_Ed25519 => HashType::Sha2_384,
            Ciphersuite::MLS_256_MLKEM768_X25519_AES256GCM_SHA384_MLDSA65 => HashType::Sha2_384,
            Ciphersuite::MLS_256_MLKEM768_AES256GCM_SHA384_MLDSA65 => HashType::Sha2_384,
        }
    }

    /// The AEAD that HPKE uses under this suite.
    pub fn hpke_aead_algorithm(self) -> (r: HpkeAeadType)
        ensures
            r == hpke_aead_of(ciphersuite_aead(self)),
    {
        match self.aead_algorithm() {
            AeadType::Aes128Gcm => HpkeAeadType::AesGcm128,
            AeadType::Aes256Gcm => HpkeAeadType::AesGcm256,
            AeadType::ChaCha20Poly1305 => HpkeAeadType::ChaCha20Poly1305,
        }
    }
}

impl SignatureScheme {
    /// The codepoint on the wire.
    pub fn codepoint(self) -> (r: u16)
        ensures
            r == signature_codepoint(self),
    {
        match self {
            SignatureScheme::ECDSA_SECP256R1_SHA256 => 0x0403,
            SignatureScheme::ECDSA_SECP384R1_SHA384 => 0x0503,
            SignatureScheme::ECDSA_SECP521R1_SHA512 => 0x0603,
            SignatureScheme::ED25519 => 0x0807,
            SignatureScheme::ED448 => 0x0808,
            SignatureScheme::MLDSA44 => 0x0904,
            SignatureScheme::MLDSA65 => 0x0905,
            SignatureScheme::MLDSA87 => 0x0906,
        }
    }

    /// The scheme that has the codepoint `value`, if there is one.
    pub fn from_codepoint(value: u16) -> (r: Option<SignatureScheme>)
        ensures
            match r {
                Some(s) => signature_codepoint(s) == value,
                None => forall|s: SignatureScheme| #[trigger] signature_codepoint(s) != value,
            },
    {
        match value {
            0x0403 => Some(SignatureScheme::ECDSA_SECP256R1_SHA256),
            0x0503 => Some(SignatureScheme::ECDSA_SECP384R1_SHA384),
            0x0603 => Some(SignatureScheme::ECDSA_SECP521R1_SHA512),
            0x0807 => Some(SignatureScheme::ED25519),
            0x0808 => Some(SignatureScheme::ED448),
            0x0904 => Some(SignatureScheme::MLDSA44),
            0x0905 => Some(SignatureScheme::MLDSA65),
            0x0906 => Some(SignatureScheme::MLDSA87),
            _ => None,
        }
    }

    /// Returns `true` for the ML-DSA schemes.
    pub fn is_post_quantum(self) -> (r: bool)
        ensures
            r == signature_is_post_quantum(self),
    {
        matches!(
            self,
            SignatureScheme::MLDSA44 | SignatureScheme::MLDSA65 | SignatureScheme::MLDSA87
        )
    }

    /// Returns `true` if the scheme's codepoint is a draft one. Those are the
    /// ML-DSA schemes.
    pub fn is_draft_codepoint(self) -> (r: bool)
        ensures
            r == signature_is_post_quantum(self),
    {
        self.is_post_quantum()
    }
}

impl HpkeKemType {
    /// Returns `true` if the KEM's codepoint is a draft or private-use one.
    pub fn is_draft_codepoint(self) -> (r: bool)
        ensures
            r == kem_is_draft(self),
    {
        matches!(
            self,
            HpkeKemType::XWingKemDraft6 | HpkeKemType::MlKem768X25519Draft
                | HpkeKemType::MlKem768Draft | HpkeKemType::MlKem1024Draft
        )
    }
}

/// Different suites have different codepoints.
pub proof fn ciphersuite_codepoints_are_distinct(a: Ciphersuite, b: Ciphersuite)
    ensures
        ciphersuite_codepoint(a) == ciphersuite_codepoint(b) ==> a == b,
{
}

/// Different signature schemes have different codepoints.
pub proof fn signature_codepoints_are_distinct(a: SignatureScheme, b: SignatureScheme)
    ensures
        signature_codepoint(a) == signature_codepoint(b) ==> a == b,
{
}

/// The identifier of an MLS group.
#[derive(Debug, PartialEq, Eq, Hash)]
pub struct GroupId {
    value: Vec<u8>,
}

impl View for GroupId {
    type V = Seq<u8>;

    closed spec fn view(&self) -> Seq<u8> {
        self.value@
    }
}

impl GroupId {
    /// The identifier made of `bytes`.
    pub fn from_slice(bytes: &[u8]) -> (r: GroupId)
        ensures
            r@ == bytes@,
    {
        GroupId { value: copy_bytes(bytes) }
    }

    /// The identifier that holds `value`.
    pub fn from_vec(value: Vec<u8>) -> (r: GroupId)
        ensures
            r@ == value@,
    {
        GroupId { value }
    }

    /// The bytes of the identifier.
    pub fn as_slice(&self) -> (r: &[u8])
        ensures
            r@ == self@,
    {
        self.value.as_slice()
    }

    /// Returns `true` exactly when the two identifiers have the same bytes.
    pub fn equals(&self, other: &GroupId) -> (r: bool)
        ensures
            r == (self@ == other@),
    {
        bytes_equal(self.value.as_slice(), other.value.as_slice())
    }
}

impl Clone for GroupId {
    fn clone(&self) -> (r: Self)
        ensures
            r@ == self@,
    {
        GroupId::from_slice(self.value.as_slice())
    }
}

impl MapKey for GroupId {
    type Model = Seq<u8>;

    open spec fn model(&self) -> Seq<u8> {
        self@
    }

    fn same(&self, other: &Self) -> (r: bool) {
        self.equals(other)
    }
}

impl MapKey for Vec<u8> {
    type Model = Seq<u8>;

    open spec fn model(&self) -> Seq<u8> {
        self@
    }

    fn same(&self, other: &Self) -> (r: bool) {
        bytes_equal(self.as_slice(), other.as_slice())
    }
}

impl MapKey for Ciphersuite {
    type Model = Ciphersuite;

    open spec fn model(&self) -> Ciphersuite {
        *self
    }

    fn same(&self, other: &Self) -> (r: bool) {
        *self == *other
    }
}

/// A user identifier together with a device identifier.
#[derive(Debug)]
pub struct DeviceKey {
    /// The user.
    pub user_id: Vec<u8>,
    /// The user's device.
    pub device_id: Vec<u8>,
}

impl View for DeviceKey {
    type V = (Seq<u8>, Seq<u8>);

    open spec fn view(&self) -> (Seq<u8>, Seq<u8>) {
        (self.user_id@, self.device_id@)
    }
}

impl DeviceKey {
    /// The key for `user_id` and `device_id`.
    pub fn from_slices(user_id: &[u8], device_id: &[u8]) -> (r: DeviceKey)
        ensures
            r@ == (user_id@, device_id@),
    {
        DeviceKey { user_id: copy_bytes(user_id), device_id: copy_bytes(device_id) }
    }
}

impl MapKey for DeviceKey {
    type Model = (Seq<u8>, Seq<u8>);

    open spec fn model(&self) -> (Seq<u8>, Seq<u8>) {
        self@
    }

    fn same(&self, other: &Self) -> (r: bool) {
        bytes_equal(self.user_id.as_slice(), other.user_id.as_slice()) && bytes_equal(
            self.device_id.as_slice(),
            other.device_id.as_slice(),
        )
    }
}

/// A device together with a suite.
#[derive(Debug)]
pub struct SlotKey {
    /// The user.
    pub user_id: Vec<u8>,
    /// The user's device.
    pub device_id: Vec<u8>,
    /// The suite.
    pub ciphersuite: Ciphersuite,
}

/// The model of a `SlotKey`.
#[verifier::ext_equal]
pub struct Slot {
    /// The user.
    pub user_id: Seq<u8>,
    /// The user's device.
    pub device_id: Seq<u8>,
    /// The suite.
    pub ciphersuite: Ciphersuite,
}

impl View for SlotKey {
    type V = Slot;

    open spec fn view(&self) -> Slot {
        Slot {
            user_id: self.user_id@,
            device_id: self.device_id@,
            ciphersuite: self.ciphersuite,
        }
    }
}

impl SlotKey {
    /// The key for `user_id`, `device_id` and `ciphersuite`.
    pub fn from_slices(user_id: &[u8], device_id: &[u8], ciphersuite: Ciphersuite) -> (r: SlotKey)
        ensures
            r@ == (Slot { user_id: user_id@, device_id: device_id@, ciphersuite }),
    {
        SlotKey { user_id: copy_bytes(user_id), device_id: copy_bytes(device_id), ciphersuite }
    }
}

impl MapKey for SlotKey {
    type Model = Slot;

    open spec fn model(&self) -> Slot {
        self@
    }

    fn same(&self, other: &Self) -> (r: bool) {
        let same = self.ciphersuite == other.ciphersuite && bytes_equal(
            self.user_id.as_slice(),
            other.user_id.as_slice(),
        ) && bytes_equal(self.device_id.as_slice(), other.device_id.as_slice());
        assert(same == (self@ =~= other@));
        same
    }
}

/// Which signature scheme a suite has.
pub proof fn signature_schemes_of_suites(cs: Ciphersuite)
    ensures
        ({
            let c = ciphersuite_codepoint(cs);
            let s = ciphersuite_signature(cs);
            &&& s == SignatureScheme::ECDSA_SECP256R1_SHA256 <==> c == 0x0002
            &&& s == SignatureScheme::ECDSA_SECP384R1_SHA384 <==> c == 0x0007
            &&& s == SignatureScheme::ECDSA_SECP521R1_SHA512 <==> c == 0x0005
            &&& s == SignatureScheme::ED448 <==> c == 0x0004 || c == 0x0006 || c == 0xFE03
            &&& s == SignatureScheme::MLDSA65 <==> c == 0xFE05 || c == 0xFE06
            &&& s == SignatureScheme::ED25519 <==> c == 0x0001 || c == 0x0003 || c == 0x004D || c
                == 0xFE01 || c == 0xFE02 || c == 0xFE04
        }),
{
}

/// Which AEAD and which hash a suite has. HPKE uses the AEAD of the suite.
pub proof fn algorithms_of_suites(cs: Ciphersuite)
    ensures
        ({
            let c = ciphersuite_codepoint(cs);
            &&& ciphersuite_aead(cs) == AeadType::Aes128Gcm <==> c == 0x0001 || c == 0x0002
            &&& ciphersuite_aead(cs) == AeadType::ChaCha20Poly1305 <==> c == 0x0003 || c == 0x0006
                || c == 0x004D || c == 0xFE02
            &&& ciphersuite_hash(cs) == HashType::Sha2_256 <==> c == 0x0001 || c == 0x0002 || c
                == 0x0003 || c == 0x004D || c == 0xFE02
            &&& ciphersuite_hash(cs) == HashType::Sha2_512 <==> c == 0x0004 || c == 0x0005 || c
                == 0x0006 || c == 0xFE03
            &&& hpke_aead_of(ciphersuite_aead(cs)) == HpkeAeadType::AesGcm128 <==> ciphersuite_aead(
                cs,
            ) == AeadType::Aes128Gcm
            &&& hpke_aead_of(ciphersuite_aead(cs)) == HpkeAeadType::AesGcm256 <==> ciphersuite_aead(
                cs,
            ) == AeadType::Aes256Gcm
            &&& hpke_aead_of(ciphersuite_aead(cs)) == HpkeAeadType::ChaCha20Poly1305
                <==> ciphersuite_aead(cs) == AeadType::ChaCha20Poly1305
        }),
{
}

/// The suites have the codepoints 1 to 7, 0x4D and 0xFE01 to 0xFE06, and those beyond the
/// first seven are draft or private-use ones.
pub proof fn draft_suites_lie_beyond_the_first_seven(cs: Ciphersuite)
    ensures
        1 <= ciphersuite_codepoint(cs) <= 7 || ciphersuite_codepoint(cs) == 0x4D || 0xFE01
            <= ciphersuite_codepoint(cs) <= 0xFE06,
        ciphersuite_is_draft(cs) <==> ciphersuite_codepoint(cs) > 7,
{
}

/// A signature scheme is post-quantum exactly when it is an ML-DSA one, and those have the
/// codepoints from 0x0904 on. A KEM is a draft exactly when it is not a Diffie-Hellman one.
pub proof fn post_quantum_schemes_are_ml_dsa(scheme: SignatureScheme, kem: HpkeKemType)
    ensures
        signature_is_post_quantum(scheme) <==> 0x0904 <= signature_codepoint(scheme) <= 0x0906,
        scheme == SignatureScheme::ED25519 <==> signature_codepoint(scheme) == 0x0807,
        scheme == SignatureScheme::ED448 <==> signature_codepoint(scheme) == 0x0808,
        kem_is_draft(kem) <==> !(kem == HpkeKemType::DhKemP256 || kem == HpkeKemType::DhKemP384
            || kem == HpkeKemType::DhKemP521 || kem == HpkeKemType::DhKem25519 || kem
            == HpkeKemType::DhKem448),
{
}

} // verus!
