//! The libcrux-backed cryptography provider.
//!
//! What a primitive computes has a name here (`sha256_digest`, `aead_sealed`,
//! ...). The provider's methods say which primitive they run on which arguments
//! and when they fail.
use crate::types::{
    ciphersuite_aead, ciphersuite_codepoint, ciphersuite_signature, hpke_aead_of, kem_is_draft,
    AeadType, Ciphersuite, CryptoError, HashType, HpkeAeadType, HpkeConfig, HpkeKdfType, HpkeKemType, SignatureScheme,
};
use libcrux_traits::aead::typed_refs::Aead;
use rand::rngs::{OsRng, ReseedingRng};
use rand_chacha::ChaCha20Core;
use std::sync::Mutex;
use tls_codec::SecretVLBytes;
use vstd::prelude::*;
use vstd::slice::slice_subrange;

verus! {

/// `tls_codec::SecretVLBytes`: a byte string that is wiped when it is dropped.
#[verifier::external_type_specification]
#[verifier::external_body]
pub struct ExSecretVLBytes(SecretVLBytes);

/// The bytes that a `SecretVLBytes` holds.
pub uninterp spec fn secret_contents(s: SecretVLBytes) -> Seq<u8>;

/// `tls_codec::SecretVLBytes::new`: it holds the bytes it is given.
#[verifier::external_body]
fn into_secret(bytes: Vec<u8>) -> (r: SecretVLBytes)
    ensures
        secret_contents(r) == bytes@,
{
    SecretVLBytes::new(bytes)
}

/// The output of `libcrux_sha2::sha256`.
pub uninterp spec fn sha256_digest(data: Seq<u8>) -> Seq<u8>;

/// The output of `libcrux_sha2::sha384`.
pub uninterp spec fn sha384_digest(data: Seq<u8>) -> Seq<u8>;

/// The output of `libcrux_sha2::sha512`.
pub uninterp spec fn sha512_digest(data: Seq<u8>) -> Seq<u8>;

/// The output of `libcrux_hmac::hmac`, not shortened.
pub uninterp spec fn hmac_tag(hash: HashType, key: Seq<u8>, data: Seq<u8>) -> Seq<u8>;

/// The output of `libcrux_hkdf::extract`.
pub uninterp spec fn hkdf_prk(hash: HashType, salt: Seq<u8>, ikm: Seq<u8>) -> Seq<u8>;

/// The output of `libcrux_hkdf::expand`.
pub uninterp spec fn hkdf_okm(hash: HashType, prk: Seq<u8>, info: Seq<u8>, len: nat) -> Seq<u8>;

/// The ciphertext and the tag of libcrux's AEADs.
pub uninterp spec fn aead_sealed(
    alg: AeadType,
    key: Seq<u8>,
    nonce: Seq<u8>,
    aad: Seq<u8>,
    data: Seq<u8>,
) -> (Seq<u8>, Seq<u8>);

/// The plaintext that libcrux's AEADs find behind a ciphertext and its tag, or `None`
/// where the tag does not verify.
pub uninterp spec fn aead_opened(
    alg: AeadType,
    key: Seq<u8>,
    nonce: Seq<u8>,
    aad: Seq<u8>,
    ciphertext: Seq<u8>,
    tag: Seq<u8>,
) -> Option<Seq<u8>>;

/// The signature that `libcrux_ed25519::sign` makes.
pub uninterp spec fn ed25519_signature(data: Seq<u8>, key: Seq<u8>) -> Seq<u8>;

/// What `libcrux_ed25519::verify` decides.
pub uninterp spec fn ed25519_accepts(data: Seq<u8>, public: Seq<u8>, signature: Seq<u8>) -> bool;

/// The public key that `libcrux_ed25519` pairs with a private one.
pub uninterp spec fn ed25519_public_key(key: Seq<u8>) -> Seq<u8>;

/// How an HPKE call of `hpke_rs` failed.
#[derive(Debug, Clone, Copy, PartialEq, Eq, Structural)]
pub enum HpkeFailure {
    /// `hpke_rs::HpkeError::InvalidConfig`.
    InvalidConfig,
    /// Any other error.
    Other,
}

/// At which step an HPKE export failed.
#[derive(Debug, Clone, Copy, PartialEq, Eq, Structural)]
pub enum ExportFailure {
    /// Setting up the context.
    Setup,
    /// Exporting from the context.
    Export,
}

/// The algorithm identifiers of an HPKE configuration: KEM, KDF and AEAD.
#[derive(Debug, Clone, Copy, PartialEq, Eq, Structural)]
pub struct HpkeIds {
    /// The KEM.
    pub kem: u16,
    /// The KDF.
    pub kdf: u16,
    /// The AEAD.
    pub aead: u16,
}

/// What `hpke_rs::Hpke::open` returns in base mode.
pub uninterp spec fn hpke_opened(
    ids: HpkeIds,
    enc: Seq<u8>,
    private: Seq<u8>,
    info: Seq<u8>,
    aad: Seq<u8>,
    ciphertext: Seq<u8>,
) -> Result<Seq<u8>, HpkeFailure>;

/// What `hpke_rs::Hpke::setup_receiver` and `hpke_rs::Context::export` return in
/// base mode.
pub uninterp spec fn hpke_receiver_secret(
    ids: HpkeIds,
    enc: Seq<u8>,
    private: Seq<u8>,
    info: Seq<u8>,
    context: Seq<u8>,
    len: nat,
) -> Result<Seq<u8>, ExportFailure>;

/// The private and the public key that `hpke_rs::Hpke::derive_key_pair` returns.
pub uninterp spec fn hpke_key_pair(ids: HpkeIds, ikm: Seq<u8>) -> Result<
    (Seq<u8>, Seq<u8>),
    HpkeFailure,
>;

/// The digest length of a hash.
pub open spec fn hash_len(hash: HashType) -> nat {
    match hash {
        HashType::Sha2_256 => 32,
        HashType::Sha2_384 => 48,
        HashType::Sha2_512 => 64,
    }
}

/// The key length of an AEAD.
pub open spec fn aead_key_len(alg: AeadType) -> nat {
    match alg {
        AeadType::Aes128Gcm => 16,
        AeadType::Aes256Gcm => 32,
        AeadType::ChaCha20Poly1305 => 32,
    }
}

/// `true` if the AEAD takes a message of `n` bytes.
pub open spec fn aead_takes_message(alg: AeadType, n: nat) -> bool {
    match alg {
        AeadType::ChaCha20Poly1305 => n <= 0xffff_ffff,
        _ => n / 16 < 0xffff_fffe,
    }
}

/// `true` if the AEAD takes `n` bytes of additional data.
pub open spec fn aead_takes_aad(alg: AeadType, n: nat) -> bool {
    alg is ChaCha20Poly1305 ==> n <= 0xffff_ffff
}

/// The identifiers of the KEMs that `hpke_rs` knows and this provider uses.
pub open spec fn kem_id(kem: HpkeKemType) -> Option<u16> {
    match kem {
        HpkeKemType::DhKemP256 => Some(0x0010u16),
        HpkeKemType::DhKemP384 => Some(0x0011u16),
        HpkeKemType::DhKemP521 => Some(0x0012u16),
        HpkeKemType::DhKem25519 => Some(0x0020u16),
        HpkeKemType::DhKem448 => Some(0x0021u16),
        _ => None,
    }
}

/// The identifiers of the KDFs.
pub open spec fn kdf_id(kdf: HpkeKdfType) -> u16 {
    match kdf {
        HpkeKdfType::HkdfSha256 => 1,
        HpkeKdfType::HkdfSha384 => 2,
        HpkeKdfType::HkdfSha512 => 3,
    }
}

/// The identifiers of the HPKE AEADs.
pub open spec fn aead_id(aead: HpkeAeadType) -> u16 {
    match aead {
        HpkeAeadType::AesGcm128 => 1,
        HpkeAeadType::AesGcm256 => 2,
        HpkeAeadType::ChaCha20Poly1305 => 3,
        HpkeAeadType::Export => 0xffff,
    }
}

/// The identifiers of a configuration, if its KEM is one that is used.
pub open spec fn config_ids(config: HpkeConfig) -> Option<HpkeIds> {
    match kem_id(config.0) {
        Some(kem) => Some((HpkeIds { kem, kdf: kdf_id(config.1), aead: aead_id(config.2) })),
        None => None,
    }
}

/// `true` for the KEMs under which `hpke_rs` can derive a key pair: X25519 and
/// P-256.
pub open spec fn kem_derives(ids: HpkeIds) -> bool {
    ids.kem == 0x0020 || ids.kem == 0x0010
}

/// `true` for identifiers that `hpke_rs_crypto` knows.
pub open spec fn ids_known(ids: HpkeIds) -> bool {
    &&& ids.kem == 0x0010 || ids.kem == 0x0011 || ids.kem == 0x0012 || ids.kem == 0x0020 || ids.kem
        == 0x0021
    &&& 1 <= ids.kdf <= 3
    &&& 1 <= ids.aead <= 3 || ids.aead == 0xffff
}

/// The longest public key, encapsulated key or exporter context that an HPKE call
/// is given. Behind it `hpke_rs` puts less than 4096 bytes of its own into one
/// 32-bit length.
pub const MAX_HPKE_INPUT: usize = 0xffff_f000;

/// Runs `libcrux_sha2::sha256`. It panics on data longer than 32-bit lengths go.
#[verifier::external_body]
fn run_sha256(data: &[u8]) -> (r: Vec<u8>)
    requires
        data@.len() <= 0xffff_ffff,
    ensures
        r@ == sha256_digest(data@),
        r@.len() == 32,
{
    libcrux_sha2::sha256(data).to_vec()
}

/// Runs `libcrux_sha2::sha384`. It panics on data longer than 32-bit lengths go.
#[verifier::external_body]
fn run_sha384(data: &[u8]) -> (r: Vec<u8>)
    requires
        data@.len() <= 0xffff_ffff,
    ensures
        r@ == sha384_digest(data@),
        r@.len() == 48,
{
    libcrux_sha2::sha384(data).to_vec()
}

/// Runs `libcrux_sha2::sha512`. It panics on data longer than 32-bit lengths go.
#[verifier::external_body]
fn run_sha512(data: &[u8]) -> (r: Vec<u8>)
    requires
        data@.len() <= 0xffff_ffff,
    ensures
        r@ == sha512_digest(data@),
        r@.len() == 64,
{
    libcrux_sha2::sha512(data).to_vec()
}

/// Runs `libcrux_hmac::hmac` without shortening the tag. It panics on a key or
/// data longer than 32-bit lengths go.
#[verifier::external_body]
fn run_hmac(hash: HashType, key: &[u8], data: &[u8]) -> (r: Vec<u8>)
    requires
        key@.len() <= 0xffff_ffff,
        data@.len() <= 0xffff_ffff,
    ensures
        r@ == hmac_tag(hash, key@, data@),
        r@.len() == hash_len(hash),
{
    let alg = match hash {
        HashType::Sha2_256 => libcrux_hmac::Algorithm::Sha256,
        HashType::Sha2_384 => libcrux_hmac::Algorithm::Sha384,
        HashType::Sha2_512 => libcrux_hmac::Algorithm::Sha512,
    };
    libcrux_hmac::hmac(alg, key, data, None)
}

/// Runs `libcrux_hkdf::extract` into a buffer of the digest's length. It fails
/// only on longer arguments than these.
#[verifier::external_body]
fn run_hkdf_extract(hash: HashType, salt: &[u8], ikm: &[u8]) -> (r: Vec<u8>)
    requires
        salt@.len() <= 0xffff_ffff,
        ikm@.len() <= 0xffff_ffff,
    ensures
        r@ == hkdf_prk(hash, salt@, ikm@),
        r@.len() == hash_len(hash),
{
    let alg = match hash {
        HashType::Sha2_256 => libcrux_hkdf::Algorithm::Sha256,
        HashType::Sha2_384 => libcrux_hkdf::Algorithm::Sha384,
        HashType::Sha2_512 => libcrux_hkdf::Algorithm::Sha512,
    };
    let mut prk = vec![0u8; alg.hash_len()];
    libcrux_hkdf::extract(alg, &mut prk, salt, ikm).unwrap();
    prk
}

/// Runs `libcrux_hkdf::expand` into a buffer of `len` bytes. It fails only on
/// other lengths than these, and indexes out of bounds where `info` and a block
/// together are longer than 32-bit lengths go.
#[verifier::external_body]
fn run_hkdf_expand(hash: HashType, prk: &[u8], info: &[u8], len: usize) -> (r: Vec<u8>)
    requires
        prk@.len() >= hash_len(hash),
        len <= 255 * hash_len(hash),
        info@.len() + hash_len(hash) + 1 <= 0xffff_ffff,
    ensures
        r@ == hkdf_okm(hash, prk@, info@, len as nat),
        r@.len() == len,
{
    let alg = match hash {
        HashType::Sha2_256 => libcrux_hkdf::Algorithm::Sha256,
        HashType::Sha2_384 => libcrux_hkdf::Algorithm::Sha384,
        HashType::Sha2_512 => libcrux_hkdf::Algorithm::Sha512,
    };
    let mut okm = vec![0u8; len];
    libcrux_hkdf::expand(alg, &mut okm, prk, info).unwrap();
    okm
}

/// Runs `libcrux_traits::aead::typed_refs::KeyRef::encrypt` with
/// `libcrux_aead::Aead`, which writes the ciphertext and the tag. It fails only on
/// other lengths than these. What it writes opens again to `data` under the same key,
/// nonce and additional data, as the examples of `libcrux_aead` show.
#[verifier::external_body]
fn run_aead_encrypt(
    alg: AeadType,
    key: &[u8],
    nonce: &[u8],
    aad: &[u8],
    data: &[u8],
    ciphertext: &mut Vec<u8>,
    tag: &mut Vec<u8>,
)
    requires
        key@.len() == aead_key_len(alg),
        nonce@.len() == 12,
        aead_takes_message(alg, data@.len()),
        aead_takes_aad(alg, aad@.len()),
        old(ciphertext)@.len() == data@.len(),
        old(tag)@.len() == 16,
    ensures
        (final(ciphertext)@, final(tag)@) == aead_sealed(alg, key@, nonce@, aad@, data@),
        final(ciphertext)@.len() == data@.len(),
        final(tag)@.len() == 16,
        aead_opened(alg, key@, nonce@, aad@, final(ciphertext)@, final(tag)@) == Some(data@),
{
    let alg = match alg {
        AeadType::ChaCha20Poly1305 => libcrux_aead::Aead::ChaCha20Poly1305,
        AeadType::Aes128Gcm => libcrux_aead::Aead::AesGcm128,
        AeadType::Aes256Gcm => libcrux_aead::Aead::AesGcm256,
    };
    let (tag, nonce) = (alg.new_tag_mut(tag).unwrap(), alg.new_nonce(nonce).unwrap());
    alg.new_key(key).unwrap().encrypt(ciphertext, tag, nonce, aad, data).unwrap();
}

/// Runs `libcrux_traits::aead::typed_refs::KeyRef::decrypt` with
/// `libcrux_aead::Aead`, which writes the plaintext. It fails only where the tag does
/// not verify, or on other lengths than these.
#[verifier::external_body]
fn run_aead_decrypt(
    alg: AeadType,
    key: &[u8],
    nonce: &[u8],
    aad: &[u8],
    ciphertext: &[u8],
    tag: &[u8],
    plaintext: &mut Vec<u8>,
) -> (r: bool)
    requires
        key@.len() == aead_key_len(alg),
        nonce@.len() == 12,
        tag@.len() == 16,
        aead_takes_message(alg, ciphertext@.len()),
        aead_takes_aad(alg, aad@.len()),
        old(plaintext)@.len() == ciphertext@.len(),
    ensures
        match aead_opened(alg, key@, nonce@, aad@, ciphertext@, tag@) {
            Some(s) => r && final(plaintext)@ == s && s.len() == ciphertext@.len(),
            None => !r,
        },
{
    let alg = match alg {
        AeadType::ChaCha20Poly1305 => libcrux_aead::Aead::ChaCha20Poly1305,
        AeadType::Aes128Gcm => libcrux_aead::Aead::AesGcm128,
        AeadType::Aes256Gcm => libcrux_aead::Aead::AesGcm256,
    };
    let (tag, nonce) = (alg.new_tag(tag).unwrap(), alg.new_nonce(nonce).unwrap());
    alg.new_key(key).unwrap().decrypt(plaintext, nonce, aad, ciphertext, tag).is_ok()
}

/// Runs `libcrux_ed25519::sign`. It fails only on data longer than 32-bit lengths
/// go. The signature verifies under the public key that goes with `key`, which has 32
/// bytes: `verify` recomputes the same hash and the same point.
#[verifier::external_body]
fn run_ed25519_sign(data: &[u8], key: &[u8]) -> (r: Vec<u8>)
    requires
        data@.len() <= 0xffff_ffff,
        key@.len() == 32,
    ensures
        r@ == ed25519_signature(data@, key@),
        r@.len() == 64,
        verify_result(SignatureScheme::ED25519, data@, ed25519_public_key(key@), r@) is Ok,
{
    libcrux_ed25519::sign(data, key.try_into().unwrap()).unwrap().to_vec()
}

/// Runs `libcrux_ed25519::verify`. On data of these lengths it fails only where
/// the signature does not verify.
#[verifier::external_body]
fn run_ed25519_verify(data: &[u8], public: &[u8], signature: &[u8]) -> (r: bool)
    requires
        data@.len() <= 0xffff_ffff,
        public@.len() == 32,
        signature@.len() == 64,
    ensures
        r == ed25519_accepts(data@, public@, signature@),
{
    libcrux_ed25519::verify(data, public.try_into().unwrap(), signature.try_into().unwrap()).is_ok()
}

/// The random generator of a provider: `rand::rngs::ReseedingRng` behind a
/// `std::sync::Mutex`. The parameters of `ReseedingRng` are bound by traits of
/// `rand_core`, so the type stands in a struct of its own.
#[verifier::external_body]
pub struct GuardedRng {
    rng: Mutex<ReseedingRng<ChaCha20Core, OsRng>>,
}

/// Seeds a generator with `rand::rngs::ReseedingRng::new` that reseeds itself after
/// `threshold` bytes. `None` stands for a failure of the operating system's
/// source.
#[verifier::external_body]
fn run_new_rng(threshold: u64) -> (r: Option<GuardedRng>)
    requires
        threshold == RESEED_THRESHOLD,
{
    let rng = ReseedingRng::<ChaCha20Core, _>::new(threshold, OsRng).ok()?;
    Some(GuardedRng { rng: Mutex::new(rng) })
}

/// Why no key pair came.
#[derive(Debug, Clone, Copy, PartialEq, Eq, Structural)]
pub enum KeyGenFailure {
    /// The generator's lock is poisoned.
    Lock,
    /// `libcrux_ed25519::generate_key_pair` failed.
    KeyGen,
}

/// Runs `libcrux_ed25519::generate_key_pair` with the provider's generator, and
/// returns the private and the public key. Which key comes is left to chance.
#[verifier::external_body]
fn run_ed25519_key_gen(rng: &GuardedRng) -> (r: Result<(Vec<u8>, Vec<u8>), KeyGenFailure>)
    ensures
        r matches Ok((key, public)) ==> key@.len() == 32 && public@.len() == 32 && public@
            == ed25519_public_key(key@),
{
    let mut guard = rng.rng.lock().map_err(|_| KeyGenFailure::Lock)?;
    match libcrux_ed25519::generate_key_pair(&mut *guard) {
        Ok((sk, pk)) => Ok((sk.into_bytes().to_vec(), pk.into_bytes().to_vec())),
        Err(_) => Err(KeyGenFailure::KeyGen),
    }
}

/// Runs `hpke_rs::Hpke::seal` in base mode, and returns the encapsulated key and
/// the ciphertext. It draws a fresh ephemeral key. Where `public` is a key that
/// `derive_key_pair` made, opening with the private key that came with it gives
/// `plaintext` back. It panics under the other KEMs and under the export-only
/// AEAD.
#[verifier::external_body]
fn run_hpke_seal(
    ids: HpkeIds,
    public: &[u8],
    info: &[u8],
    aad: &[u8],
    plaintext: &[u8],
) -> (r: Result<(Vec<u8>, Vec<u8>), HpkeFailure>)
    requires
        ids_known(ids),
        kem_derives(ids),
        ids.aead != 0xffff,
        public@.len() <= MAX_HPKE_INPUT,
    ensures
        r matches Ok((enc, ct)) ==> forall|ikm: Seq<u8>|
            #[trigger] hpke_key_pair(ids, ikm) matches Ok((sk, pk)) ==> (pk == public@
                ==> hpke_opened(ids, enc@, sk, info@, aad@, ct@) == Ok::<Seq<u8>, HpkeFailure>(
                plaintext@,
            )),
{
    let (kem, kdf, aead) = (ids.kem.try_into().ok(), ids.kdf.try_into().ok(), ids.aead.try_into().ok());
    let mode = hpke_rs::Mode::Base;
    let mut hpke = hpke_rs::Hpke::<hpke_rs_libcrux::HpkeLibcrux>::new(mode, kem.unwrap(), kdf.unwrap(), aead.unwrap());
    let public = hpke_rs::HpkePublicKey::new(public.to_vec());
    match hpke.seal(&public, info, aad, plaintext, None, None, None) {
        Ok(sealed) => Ok(sealed),
        Err(hpke_rs::HpkeError::InvalidConfig) => Err(HpkeFailure::InvalidConfig),
        Err(_) => Err(HpkeFailure::Other),
    }
}

/// Runs `hpke_rs::Hpke::open` in base mode. It panics under the export-only AEAD.
#[verifier::external_body]
fn run_hpke_open(
    ids: HpkeIds,
    enc: &[u8],
    private: &[u8],
    info: &[u8],
    aad: &[u8],
    ciphertext: &[u8],
) -> (r: Result<Vec<u8>, HpkeFailure>)
    requires
        ids_known(ids),
        ids.aead != 0xffff,
        enc@.len() <= MAX_HPKE_INPUT,
    ensures
        match (r, hpke_opened(ids, enc@, private@, info@, aad@, ciphertext@)) {
            (Ok(v), Ok(s)) => v@ == s,
            (Err(e), Err(f)) => e == f,
            _ => false,
        },
{
    let (kem, kdf, aead) = (ids.kem.try_into().ok(), ids.kdf.try_into().ok(), ids.aead.try_into().ok());
    let mode = hpke_rs::Mode::Base;
    let hpke = hpke_rs::Hpke::<hpke_rs_libcrux::HpkeLibcrux>::new(mode, kem.unwrap(), kdf.unwrap(), aead.unwrap());
    let private = hpke_rs::HpkePrivateKey::new(private.to_vec());
    match hpke.open(enc, &private, info, aad, ciphertext, None, None, None) {
        Ok(opened) => Ok(opened),
        Err(hpke_rs::HpkeError::InvalidConfig) => Err(HpkeFailure::InvalidConfig),
        Err(_) => Err(HpkeFailure::Other),
    }
}

/// Runs `hpke_rs::Hpke::setup_sender` and `hpke_rs::Context::export` in base mode,
/// and returns the encapsulated key and the exported secret. It draws a fresh
/// ephemeral key. Where `public` is a key that `derive_key_pair` made, the
/// receiver who holds the private key that came with it exports the same secret.
/// It panics under the other KEMs, and asserts that `len` is below 256.
#[verifier::external_body]
fn run_hpke_send_export(
    ids: HpkeIds,
    public: &[u8],
    info: &[u8],
    context: &[u8],
    len: usize,
) -> (r: Result<(Vec<u8>, Vec<u8>), ExportFailure>)
    requires
        ids_known(ids),
        kem_derives(ids),
        public@.len() <= MAX_HPKE_INPUT,
        context@.len() <= MAX_HPKE_INPUT,
        len < 256,
    ensures
        r matches Ok((enc, secret)) ==> secret@.len() == len && forall|ikm: Seq<u8>|
            #[trigger] hpke_key_pair(ids, ikm) matches Ok((sk, pk)) ==> (pk == public@
                ==> hpke_receiver_secret(ids, enc@, sk, info@, context@, len as nat) == Ok::<
                Seq<u8>,
                ExportFailure,
            >(secret@)),
{
    let (kem, kdf, aead) = (ids.kem.try_into().ok(), ids.kdf.try_into().ok(), ids.aead.try_into().ok());
    let mode = hpke_rs::Mode::Base;
    let mut hpke = hpke_rs::Hpke::<hpke_rs_libcrux::HpkeLibcrux>::new(mode, kem.unwrap(), kdf.unwrap(), aead.unwrap());
    let public = hpke_rs::HpkePublicKey::new(public.to_vec());
    let sender = hpke.setup_sender(&public, info, None, None, None);
    let (enc, ctx) = sender.map_err(|_| ExportFailure::Setup)?;
    let secret = ctx.export(context, len).map_err(|_| ExportFailure::Export)?;
    Ok((enc, secret))
}

/// Runs `hpke_rs::Hpke::setup_receiver` and `hpke_rs::Context::export` in base
/// mode. The export asserts that `len` is below 256.
#[verifier::external_body]
fn run_hpke_receive_export(
    ids: HpkeIds,
    enc: &[u8],
    private: &[u8],
    info: &[u8],
    context: &[u8],
    len: usize,
) -> (r: Result<Vec<u8>, ExportFailure>)
    requires
        ids_known(ids),
        enc@.len() <= MAX_HPKE_INPUT,
        context@.len() <= MAX_HPKE_INPUT,
        len < 256,
    ensures
        match (r, hpke_receiver_secret(ids, enc@, private@, info@, context@, len as nat)) {
            (Ok(v), Ok(s)) => v@ == s && v@.len() == len,
            (Err(e), Err(f)) => e == f,
            _ => false,
        },
{
    let (kem, kdf, aead) = (ids.kem.try_into().ok(), ids.kdf.try_into().ok(), ids.aead.try_into().ok());
    let mode = hpke_rs::Mode::Base;
    let hpke = hpke_rs::Hpke::<hpke_rs_libcrux::HpkeLibcrux>::new(mode, kem.unwrap(), kdf.unwrap(), aead.unwrap());
    let private = hpke_rs::HpkePrivateKey::new(private.to_vec());
    let receiver = hpke.setup_receiver(enc, &private, info, None, None, None);
    let ctx = receiver.map_err(|_| ExportFailure::Setup)?;
    ctx.export(context, len).map_err(|_| ExportFailure::Export)
}

/// Runs `hpke_rs::Hpke::derive_key_pair`, and returns the private and the public
/// key. It panics under the other KEMs.
#[verifier::external_body]
fn run_hpke_derive(ids: HpkeIds, ikm: &[u8]) -> (r: Result<(Vec<u8>, Vec<u8>), HpkeFailure>)
    requires
        ids_known(ids),
        kem_derives(ids),
    ensures
        match (r, hpke_key_pair(ids, ikm@)) {
            (Ok((a, b)), Ok((c, d))) => a@ == c && b@ == d,
            (Err(e), Err(f)) => e == f,
            _ => false,
        },
{
    let (kem, kdf, aead) = (ids.kem.try_into().ok(), ids.kdf.try_into().ok(), ids.aead.try_into().ok());
    let mode = hpke_rs::Mode::Base;
    let hpke = hpke_rs::Hpke::<hpke_rs_libcrux::HpkeLibcrux>::new(mode, kem.unwrap(), kdf.unwrap(), aead.unwrap());
    match hpke.derive_key_pair(ikm) {
        Ok(pair) => Ok((pair.private_key().as_slice().to_vec(), pair.public_key().as_slice().to_vec())),
        Err(hpke_rs::HpkeError::InvalidConfig) => Err(HpkeFailure::InvalidConfig),
        Err(_) => Err(HpkeFailure::Other),
    }
}

/// An HPKE ciphertext with the encapsulated key.
#[derive(Debug)]
pub struct HpkeCiphertext {
    /// The encapsulated key.
    pub kem_output: Vec<u8>,
    /// The ciphertext.
    pub ciphertext: Vec<u8>,
}

/// An HPKE key pair.
pub struct HpkeKeyPair {
    /// The private key.
    pub private: SecretVLBytes,
    /// The public key.
    pub public: Vec<u8>,
}

/// The digest of `data`.
pub open spec fn digest(hash: HashType, data: Seq<u8>) -> Seq<u8> {
    match hash {
        HashType::Sha2_256 => sha256_digest(data),
        HashType::Sha2_384 => sha384_digest(data),
        HashType::Sha2_512 => sha512_digest(data),
    }
}

/// What `CryptoProvider::sign` returns.
pub open spec fn sign_result(scheme: SignatureScheme, data: Seq<u8>, key: Seq<u8>) -> Result<
    Seq<u8>,
    CryptoError,
> {
    if scheme != SignatureScheme::ED25519 {
        Err(CryptoError::UnsupportedSignatureScheme)
    } else if key.len() != 32 {
        Err(CryptoError::InvalidLength)
    } else if data.len() > 0xffff_ffff {
        Err(CryptoError::SigningError)
    } else {
        Ok(ed25519_signature(data, key))
    }
}

/// What `CryptoProvider::verify_signature` returns.
pub open spec fn verify_result(
    scheme: SignatureScheme,
    data: Seq<u8>,
    public: Seq<u8>,
    signature: Seq<u8>,
) -> Result<(), CryptoError> {
    if scheme != SignatureScheme::ED25519 {
        Err(CryptoError::UnsupportedSignatureScheme)
    } else if public.len() != 32 || signature.len() != 64 {
        Err(CryptoError::InvalidLength)
    } else if data.len() > 0xffff_ffff {
        Err(CryptoError::SigningError)
    } else if ed25519_accepts(data, public, signature) {
        Ok(())
    } else {
        Err(CryptoError::InvalidSignature)
    }
}

/// What `CryptoProvider::aead_decrypt` returns.
pub open spec fn aead_decrypt_result(
    alg: AeadType,
    key: Seq<u8>,
    sealed: Seq<u8>,
    nonce: Seq<u8>,
    aad: Seq<u8>,
) -> Result<Seq<u8>, CryptoError> {
    if sealed.len() < 16 || nonce.len() != 12 || key.len() != aead_key_len(alg) {
        Err(CryptoError::InvalidLength)
    } else if !aead_takes_aad(alg, aad.len()) {
        Err(CryptoError::InvalidLength)
    } else if !aead_takes_message(alg, (sealed.len() - 16) as nat) {
        Err(CryptoError::CryptoLibraryError)
    } else {
        let boundary = sealed.len() - 16;
        match aead_opened(alg, key, nonce, aad, sealed.take(boundary), sealed.skip(boundary)) {
            Some(data) => Ok(data),
            None => Err(CryptoError::AeadDecryptionError),
        }
    }
}

/// What `CryptoProvider::aead_encrypt` returns.
pub open spec fn aead_encrypt_result(
    alg: AeadType,
    key: Seq<u8>,
    data: Seq<u8>,
    nonce: Seq<u8>,
    aad: Seq<u8>,
) -> Result<Seq<u8>, CryptoError> {
    if nonce.len() != 12 || key.len() != aead_key_len(alg) {
        Err(CryptoError::InvalidLength)
    } else if !aead_takes_aad(alg, aad.len()) || !aead_takes_message(alg, data.len()) {
        Err(CryptoError::CryptoLibraryError)
    } else {
        let (ciphertext, tag) = aead_sealed(alg, key, nonce, aad, data);
        Ok(ciphertext + tag)
    }
}

/// `true` for the suites that the provider says it supports: Ed25519 signatures
/// and ChaCha20-Poly1305, X-Wing excepted.
pub open spec fn suite_supported(cs: Ciphersuite) -> bool {
    &&& cs != Ciphersuite::MLS_256_XWING_CHACHA20POLY1305_SHA256_Ed25519
    &&& ciphersuite_signature(cs) == SignatureScheme::ED25519
    &&& hpke_aead_of(ciphersuite_aead(cs)) == HpkeAeadType::ChaCha20Poly1305
}

/// After how many bytes the provider's generator reseeds itself.
pub const RESEED_THRESHOLD: u64 = 0x1_0000_0000;

/// The libcrux-backed cryptography provider.
pub struct CryptoProvider {
    rng: GuardedRng,
}

/// What signs and verifies. Which schemes it serves is up to the implementation.
pub trait SignatureProvider {
    /// Whether `outcome` can come of signing `data` with `key`.
    open spec fn may_sign(
        &self,
        scheme: SignatureScheme,
        data: Seq<u8>,
        key: Seq<u8>,
        outcome: Result<Seq<u8>, CryptoError>,
    ) -> bool {
        arbitrary()
    }

    /// What verifying a signature of `data` gives.
    open spec fn verification(
        &self,
        scheme: SignatureScheme,
        data: Seq<u8>,
        public: Seq<u8>,
        signature: Seq<u8>,
    ) -> Result<(), CryptoError> {
        arbitrary()
    }

    /// Signs `data`.
    fn sign(&self, alg: SignatureScheme, data: &[u8], key: &[u8]) -> (r: Result<
        Vec<u8>,
        CryptoError,
    >)
        ensures
            self.may_sign(alg, data@, key@, signing_view(r)),
    ;

    /// Verifies a signature of `data`.
    fn verify_signature(
        &self,
        alg: SignatureScheme,
        data: &[u8],
        pk: &[u8],
        signature: &[u8],
    ) -> (r: Result<(), CryptoError>)
        ensures
            r == self.verification(alg, data@, pk@, signature@),
    ;
}

/// The view of what came of signing.
pub open spec fn signing_view(r: Result<Vec<u8>, CryptoError>) -> Result<Seq<u8>, CryptoError> {
    match r {
        Ok(signature) => Ok(signature@),
        Err(e) => Err(e),
    }
}

impl SignatureProvider for CryptoProvider {
    /// There is one outcome. A signature verifies under the public key of `key`.
    open spec fn may_sign(
        &self,
        scheme: SignatureScheme,
        data: Seq<u8>,
        key: Seq<u8>,
        outcome: Result<Seq<u8>, CryptoError>,
    ) -> bool {
        outcome == sign_result(scheme, data, key) && (outcome matches Ok(signature)
            ==> verify_result(scheme, data, ed25519_public_key(key), signature) is Ok)
    }

    open spec fn verification(
        &self,
        scheme: SignatureScheme,
        data: Seq<u8>,
        public: Seq<u8>,
        signature: Seq<u8>,
    ) -> Result<(), CryptoError> {
        verify_result(scheme, data, public, signature)
    }

    fn sign(&self, alg: SignatureScheme, data: &[u8], key: &[u8]) -> (r: Result<
        Vec<u8>,
        CryptoError,
    >) {
        CryptoProvider::sign(self, alg, data, key)
    }

    fn verify_signature(
        &self,
        alg: SignatureScheme,
        data: &[u8],
        pk: &[u8],
        signature: &[u8],
    ) -> (r: Result<(), CryptoError>) {
        CryptoProvider::verify_signature(self, alg, data, pk, signature)
    }
}

/// The identifier of a KEM, or an error where the provider does not use it.
pub fn hpke_kem(kem: HpkeKemType) -> (r: Result<u16, CryptoError>)
    ensures
        match (r, kem_id(kem)) {
            (Ok(a), Some(b)) => a == b,
            (Err(e), None) => e == CryptoError::UnsupportedCiphersuite,
            _ => false,
        },
{
    match kem {
        HpkeKemType::DhKemP256 => Ok(0x0010),
        HpkeKemType::DhKemP384 => Ok(0x0011),
        HpkeKemType::DhKemP521 => Ok(0x0012),
        HpkeKemType::DhKem25519 => Ok(0x0020),
        HpkeKemType::DhKem448 => Ok(0x0021),
        HpkeKemType::XWingKemDraft6 => Err(CryptoError::UnsupportedCiphersuite),
        HpkeKemType::MlKem768X25519Draft | HpkeKemType::MlKem768Draft
        | HpkeKemType::MlKem1024Draft => Err(CryptoError::UnsupportedCiphersuite),
    }
}

/// The identifier of a KDF.
pub fn hpke_kdf(kdf: HpkeKdfType) -> (r: u16)
    ensures
        r == kdf_id(kdf),
{
    match kdf {
        HpkeKdfType::HkdfSha256 => 1,
        HpkeKdfType::HkdfSha384 => 2,
        HpkeKdfType::HkdfSha512 => 3,
    }
}

/// The identifier of an HPKE AEAD.
pub fn hpke_aead(aead: HpkeAeadType) -> (r: u16)
    ensures
        r == aead_id(aead),
{
    match aead {
        HpkeAeadType::AesGcm128 => 1,
        HpkeAeadType::AesGcm256 => 2,
        HpkeAeadType::ChaCha20Poly1305 => 3,
        HpkeAeadType::Export => 0xffff,
    }
}

/// The identifiers of a configuration.
pub fn hpke_config(config: HpkeConfig) -> (r: Result<HpkeIds, CryptoError>)
    ensures
        match (r, config_ids(config)) {
            (Ok(a), Some(b)) => a == b && ids_known(a),
            (Err(e), None) => e == CryptoError::UnsupportedCiphersuite,
            _ => false,
        },
{
    match hpke_kem(config.0) {
        Ok(kem) => Ok(HpkeIds { kem, kdf: hpke_kdf(config.1), aead: hpke_aead(config.2) }),
        Err(e) => Err(e),
    }
}

impl CryptoProvider {
    /// A provider with a freshly seeded generator. Whether the operating system
    /// yields a seed is not for this function to say.
    pub fn new() -> (r: Result<Self, CryptoError>)
        ensures
            r matches Err(e) ==> e == CryptoError::InsufficientRandomness,
    {
        match run_new_rng(RESEED_THRESHOLD) {
            Some(rng) => Ok(CryptoProvider { rng }),
            None => Err(CryptoError::InsufficientRandomness),
        }
    }

    /// Whether the provider supports a ciphersuite.
    pub fn supports(&self, ciphersuite: Ciphersuite) -> (r: Result<(), CryptoError>)
        ensures
            r == (if suite_supported(ciphersuite) {
                Ok::<(), CryptoError>(())
            } else {
                Err(CryptoError::UnsupportedCiphersuite)
            }),
    {
        if matches!(ciphersuite, Ciphersuite::MLS_256_XWING_CHACHA20POLY1305_SHA256_Ed25519) {
            return Err(CryptoError::UnsupportedCiphersuite);
        }
        match ciphersuite.aead_algorithm() {
            AeadType::ChaCha20Poly1305 | AeadType::Aes128Gcm | AeadType::Aes256Gcm => {},
        }
        match ciphersuite.signature_algorithm() {
            SignatureScheme::ED25519 => {},
            _ => {
                return Err(CryptoError::UnsupportedCiphersuite);
            },
        }
        match ciphersuite.hash_algorithm() {
            HashType::Sha2_256 | HashType::Sha2_384 | HashType::Sha2_512 => {},
        }
        match ciphersuite.hpke_aead_algorithm() {
            HpkeAeadType::ChaCha20Poly1305 => Ok(()),
            _ => Err(CryptoError::UnsupportedCiphersuite),
        }
    }

    /// The ciphersuites that the provider lists.
    pub fn supported_ciphersuites(&self) -> (r: Vec<Ciphersuite>)
        ensures
            r@ == seq![
                Ciphersuite::MLS_128_DHKEMX25519_AES128GCM_SHA256_Ed25519,
                Ciphersuite::MLS_128_DHKEMX25519_CHACHA20POLY1305_SHA256_Ed25519,
            ],
    {
        let mut suites: Vec<Ciphersuite> = Vec::new();
        suites.push(Ciphersuite::MLS_128_DHKEMX25519_AES128GCM_SHA256_Ed25519);
        suites.push(Ciphersuite::MLS_128_DHKEMX25519_CHACHA20POLY1305_SHA256_Ed25519);
        suites
    }

    /// HKDF-Extract.
    pub fn hkdf_extract(&self, hash_type: HashType, salt: &[u8], ikm: &[u8]) -> (r: Result<
        SecretVLBytes,
        CryptoError,
    >)
        ensures
            match r {
                Ok(prk) => salt@.len() <= 0xffff_ffff && ikm@.len() <= 0xffff_ffff
                    && secret_contents(prk) == hkdf_prk(hash_type, salt@, ikm@)
                    && secret_contents(prk).len() == hash_len(hash_type),
                Err(e) => (salt@.len() > 0xffff_ffff || ikm@.len() > 0xffff_ffff) && e
                    == CryptoError::InvalidLength,
            },
    {
        if salt.len() as u64 > 0xffff_ffff || ikm.len() as u64 > 0xffff_ffff {
            return Err(CryptoError::InvalidLength);
        }
        Ok(into_secret(run_hkdf_extract(hash_type, salt, ikm)))
    }

    /// HMAC.
    pub fn hmac(&self, hash_type: HashType, key: &[u8], message: &[u8]) -> (r: Result<
        SecretVLBytes,
        CryptoError,
    >)
        requires
            key@.len() <= 0xffff_ffff,
            message@.len() <= 0xffff_ffff,
        ensures
            match r {
                Ok(tag) => secret_contents(tag) == hmac_tag(hash_type, key@, message@)
                    && secret_contents(tag).len() == hash_len(hash_type),
                Err(_) => false,
            },
    {
        Ok(into_secret(run_hmac(hash_type, key, message)))
    }

    /// HKDF-Expand.
    pub fn hkdf_expand(
        &self,
        hash_type: HashType,
        prk: &[u8],
        info: &[u8],
        okm_len: usize,
    ) -> (r: Result<SecretVLBytes, CryptoError>)
        requires
            info@.len() <= 0xffff_ffff ==> info@.len() + hash_len(hash_type) + 1 <= 0xffff_ffff,
        ensures
            match r {
                Ok(okm) => prk@.len() >= hash_len(hash_type) && okm_len <= 255 * hash_len(hash_type)
                    && info@.len() <= 0xffff_ffff && secret_contents(okm) == hkdf_okm(
                    hash_type,
                    prk@,
                    info@,
                    okm_len as nat,
                ) && secret_contents(okm).len() == okm_len,
                Err(e) => if prk@.len() < hash_len(hash_type) {
                    e == CryptoError::InvalidLength
                } else if okm_len > 255 * hash_len(hash_type) {
                    e == CryptoError::HkdfOutputLengthInvalid
                } else {
                    info@.len() > 0xffff_ffff && e == CryptoError::InvalidLength
                },
            },
    {
        let len: usize = match hash_type {
            HashType::Sha2_256 => 32,
            HashType::Sha2_384 => 48,
            HashType::Sha2_512 => 64,
        };
        if prk.len() < len {
            return Err(CryptoError::InvalidLength);
        }
        if okm_len > 255 * len {
            return Err(CryptoError::HkdfOutputLengthInvalid);
        }
        if info.len() as u64 > 0xffff_ffff {
            return Err(CryptoError::InvalidLength);
        }
        Ok(into_secret(run_hkdf_expand(hash_type, prk, info, okm_len)))
    }

    /// Hashes `data`.
    pub fn hash(&self, hash_type: HashType, data: &[u8]) -> (r: Result<Vec<u8>, CryptoError>)
        requires
            data@.len() <= 0xffff_ffff,
        ensures
            match r {
                Ok(d) => d@ == digest(hash_type, data@) && d@.len() == hash_len(hash_type),
                Err(_) => false,
            },
    {
        let out = match hash_type {
            HashType::Sha2_256 => run_sha256(data),
            HashType::Sha2_384 => run_sha384(data),
            HashType::Sha2_512 => run_sha512(data),
        };
        Ok(out)
    }

    /// Encrypts `data`. What comes back decrypts to `data` again.
    pub fn aead_encrypt(
        &self,
        alg: AeadType,
        key: &[u8],
        data: &[u8],
        nonce: &[u8],
        aad: &[u8],
    ) -> (r: Result<Vec<u8>, CryptoError>)
        ensures
            match (r, aead_encrypt_result(alg, key@, data@, nonce@, aad@)) {
                (Ok(v), Ok(s)) => v@ == s && v@.len() == data@.len() + 16 && aead_decrypt_result(
                    alg,
                    key@,
                    v@,
                    nonce@,
                    aad@,
                ) == Ok::<Seq<u8>, CryptoError>(data@),
                (Err(e), Err(f)) => e == f,
                _ => false,
            },
    {
        if nonce.len() != 12 {
            return Err(CryptoError::InvalidLength);
        }
        if key.len() != aead_key_length(alg) {
            return Err(CryptoError::InvalidLength);
        }
        if !takes_message(alg, data.len()) || !takes_aad(alg, aad.len()) {
            return Err(CryptoError::CryptoLibraryError);
        }
        let mut sealed: Vec<u8> = vec![0u8; data.len()];
        let mut tag: Vec<u8> = vec![0u8; 16];
        run_aead_encrypt(alg, key, nonce, aad, data, &mut sealed, &mut tag);
        let ghost ciphertext = sealed@;
        sealed.append(&mut tag);
        proof {
            let boundary = sealed@.len() - 16;
            assert(sealed@.take(boundary) =~= ciphertext);
            assert(sealed@.skip(boundary) =~= aead_sealed(alg, key@, nonce@, aad@, data@).1);
        }
        Ok(sealed)
    }

    /// Decrypts a ciphertext that is followed by its tag.
    pub fn aead_decrypt(
        &self,
        alg: AeadType,
        key: &[u8],
        ct_tag: &[u8],
        nonce: &[u8],
        aad: &[u8],
    ) -> (r: Result<Vec<u8>, CryptoError>)
        ensures
            match (r, aead_decrypt_result(alg, key@, ct_tag@, nonce@, aad@)) {
                (Ok(v), Ok(s)) => v@ == s && v@.len() == ct_tag@.len() - 16,
                (Err(e), Err(f)) => e == f,
                _ => false,
            },
    {
        if ct_tag.len() < 16 {
            return Err(CryptoError::InvalidLength);
        }
        if nonce.len() != 12 {
            return Err(CryptoError::InvalidLength);
        }
        if key.len() != aead_key_length(alg) {
            return Err(CryptoError::InvalidLength);
        }
        if !takes_aad(alg, aad.len()) {
            return Err(CryptoError::InvalidLength);
        }
        if !takes_message(alg, ct_tag.len() - 16) {
            return Err(CryptoError::CryptoLibraryError);
        }
        let boundary: usize = ct_tag.len() - 16;
        let ciphertext: &[u8] = slice_subrange(ct_tag, 0, boundary);
        let tag: &[u8] = slice_subrange(ct_tag, boundary, ct_tag.len());
        proof {
            assert(ciphertext@ =~= ct_tag@.take(boundary as int));
            assert(tag@ =~= ct_tag@.skip(boundary as int));
        }
        let mut plaintext: Vec<u8> = vec![0u8; boundary];
        if run_aead_decrypt(alg, key, nonce, aad, ciphertext, tag, &mut plaintext) {
            Ok(plaintext)
        } else {
            Err(CryptoError::AeadDecryptionError)
        }
    }

    /// Generates a signature key pair: the private and the public key. Which one is
    /// left to chance.
    pub fn signature_key_gen(&self, alg: SignatureScheme) -> (r: Result<
        (Vec<u8>, Vec<u8>),
        CryptoError,
    >)
        ensures
            alg != SignatureScheme::ED25519 ==> r == Err::<(Vec<u8>, Vec<u8>), CryptoError>(
                CryptoError::UnsupportedSignatureScheme,
            ),
            alg == SignatureScheme::ED25519 ==> match r {
                Ok((key, public)) => key@.len() == 32 && public@.len() == 32 && public@
                    == ed25519_public_key(key@),
                Err(e) => e == CryptoError::CryptoLibraryError || e == CryptoError::SigningError,
            },
    {
        if !matches!(alg, SignatureScheme::ED25519) {
            return Err(CryptoError::UnsupportedSignatureScheme);
        }
        key_gen_outcome(run_ed25519_key_gen(&self.rng))
    }

    /// Verifies a signature.
    pub fn verify_signature(
        &self,
        alg: SignatureScheme,
        data: &[u8],
        pk: &[u8],
        signature: &[u8],
    ) -> (r: Result<(), CryptoError>)
        ensures
            r == verify_result(alg, data@, pk@, signature@),
    {
        if !matches!(alg, SignatureScheme::ED25519) {
            return Err(CryptoError::UnsupportedSignatureScheme);
        }
        if pk.len() != 32 {
            return Err(CryptoError::InvalidLength);
        }
        if signature.len() != 64 {
            return Err(CryptoError::InvalidLength);
        }
        if data.len() as u64 > 0xffff_ffff {
            return Err(CryptoError::SigningError);
        }
        if run_ed25519_verify(data, pk, signature) {
            Ok(())
        } else {
            Err(CryptoError::InvalidSignature)
        }
    }

    /// Signs `data`. The signature verifies under the public key of `key`.
    pub fn sign(&self, alg: SignatureScheme, data: &[u8], key: &[u8]) -> (r: Result<
        Vec<u8>,
        CryptoError,
    >)
        ensures
            match (r, sign_result(alg, data@, key@)) {
                (Ok(v), Ok(s)) => v@ == s && v@.len() == 64 && verify_result(
                    alg,
                    data@,
                    ed25519_public_key(key@),
                    v@,
                ) is Ok,
                (Err(e), Err(f)) => e == f,
                _ => false,
            },
    {
        if !matches!(alg, SignatureScheme::ED25519) {
            return Err(CryptoError::UnsupportedSignatureScheme);
        }
        if key.len() != 32 {
            return Err(CryptoError::InvalidLength);
        }
        if data.len() as u64 > 0xffff_ffff {
            return Err(CryptoError::SigningError);
        }
        Ok(run_ed25519_sign(data, key))
    }

    /// Encrypts `ptxt` to the public key `pk_r`.
    pub fn hpke_seal(
        &self,
        config: HpkeConfig,
        pk_r: &[u8],
        info: &[u8],
        aad: &[u8],
        ptxt: &[u8],
    ) -> (r: Result<HpkeCiphertext, CryptoError>)
        requires
            config_ids(config) matches Some(ids) ==> kem_derives(ids) && ids.aead != 0xffff,
            pk_r@.len() <= MAX_HPKE_INPUT,
        ensures
            match config_ids(config) {
                None => r matches Err(e) && e == CryptoError::UnsupportedCiphersuite,
                Some(ids) => match r {
                    Ok(c) => forall|ikm: Seq<u8>|
                        #[trigger] hpke_key_pair(ids, ikm) matches Ok((sk, pk)) ==> (pk == pk_r@
                            ==> hpke_opened(ids, c.kem_output@, sk, info@, aad@, c.ciphertext@)
                            == Ok::<Seq<u8>, HpkeFailure>(ptxt@)),
                    Err(e) => e == CryptoError::SenderSetupError || e
                        == CryptoError::HpkeEncryptionError,
                },
            },
    {
        match hpke_config(config) {
            Err(e) => Err(e),
            Ok(ids) => seal_outcome(run_hpke_seal(ids, pk_r, info, aad, ptxt)),
        }
    }

    /// Decrypts an HPKE ciphertext with the private key `sk_r`.
    pub fn hpke_open(
        &self,
        config: HpkeConfig,
        input: &HpkeCiphertext,
        sk_r: &[u8],
        info: &[u8],
        aad: &[u8],
    ) -> (r: Result<Vec<u8>, CryptoError>)
        requires
            config_ids(config) matches Some(ids) ==> ids.aead != 0xffff,
            input.kem_output@.len() <= MAX_HPKE_INPUT,
        ensures
            match config_ids(config) {
                None => r matches Err(e) && e == CryptoError::UnsupportedCiphersuite,
                Some(ids) => match (
                    r,
                    hpke_opened(ids, input.kem_output@, sk_r@, info@, aad@, input.ciphertext@),
                ) {
                    (Ok(v), Ok(s)) => v@ == s,
                    (Err(e), Err(f)) => e == open_error(f),
                    _ => false,
                },
            },
    {
        match hpke_config(config) {
            Err(e) => Err(e),
            Ok(ids) => open_outcome(
                run_hpke_open(
                    ids,
                    input.kem_output.as_slice(),
                    sk_r,
                    info,
                    aad,
                    input.ciphertext.as_slice(),
                ),
            ),
        }
    }

    /// Sets up an HPKE sender and exports a secret from it: the encapsulated key and
    /// the secret.
    pub fn hpke_setup_sender_and_export(
        &self,
        config: HpkeConfig,
        pk_r: &[u8],
        info: &[u8],
        exporter_context: &[u8],
        exporter_length: usize,
    ) -> (r: Result<(Vec<u8>, SecretVLBytes), CryptoError>)
        requires
            config_ids(config) matches Some(ids) ==> kem_derives(ids),
            pk_r@.len() <= MAX_HPKE_INPUT,
            exporter_context@.len() <= MAX_HPKE_INPUT,
            exporter_length < 256,
        ensures
            match config_ids(config) {
                None => r matches Err(e) && e == CryptoError::UnsupportedCiphersuite,
                Some(ids) => match r {
                    Ok((enc, secret)) => secret_contents(secret).len() == exporter_length
                        && forall|ikm: Seq<u8>|
                        #[trigger] hpke_key_pair(ids, ikm) matches Ok((sk, pk)) ==> (pk == pk_r@
                            ==> hpke_receiver_secret(
                            ids,
                            enc@,
                            sk,
                            info@,
                            exporter_context@,
                            exporter_length as nat,
                        ) == Ok::<Seq<u8>, ExportFailure>(secret_contents(secret))),
                    Err(e) => e == CryptoError::SenderSetupError || e == CryptoError::ExporterError,
                },
            },
    {
        match hpke_config(config) {
            Err(e) => Err(e),
            Ok(ids) => send_export_outcome(
                run_hpke_send_export(ids, pk_r, info, exporter_context, exporter_length),
            ),
        }
    }

    /// Sets up an HPKE receiver and exports a secret from it.
    pub fn hpke_setup_receiver_and_export(
        &self,
        config: HpkeConfig,
        enc: &[u8],
        sk_r: &[u8],
        info: &[u8],
        exporter_context: &[u8],
        exporter_length: usize,
    ) -> (r: Result<SecretVLBytes, CryptoError>)
        requires
            enc@.len() <= MAX_HPKE_INPUT,
            exporter_context@.len() <= MAX_HPKE_INPUT,
            exporter_length < 256,
        ensures
            match config_ids(config) {
                None => r matches Err(e) && e == CryptoError::UnsupportedCiphersuite,
                Some(ids) => match (
                    r,
                    hpke_receiver_secret(
                        ids,
                        enc@,
                        sk_r@,
                        info@,
                        exporter_context@,
                        exporter_length as nat,
                    ),
                ) {
                    (Ok(v), Ok(s)) => secret_contents(v) == s && s.len() == exporter_length,
                    (Err(e), Err(f)) => e == receive_export_error(f),
                    _ => false,
                },
            },
    {
        match hpke_config(config) {
            Err(e) => Err(e),
            Ok(ids) => receive_export_outcome(
                run_hpke_receive_export(ids, enc, sk_r, info, exporter_context, exporter_length),
            ),
        }
    }

    /// Derives an HPKE key pair from key material.
    pub fn derive_hpke_keypair(&self, config: HpkeConfig, ikm: &[u8]) -> (r: Result<
        HpkeKeyPair,
        CryptoError,
    >)
        requires
            config_ids(config) matches Some(ids) ==> kem_derives(ids),
        ensures
            match config_ids(config) {
                None => r matches Err(e) && e == CryptoError::UnsupportedCiphersuite,
                Some(ids) => match (r, hpke_key_pair(ids, ikm@)) {
                    (Ok(pair), Ok((sk, pk))) => secret_contents(pair.private) == sk
                        && pair.public@ == pk,
                    (Err(e), Err(f)) => e == derive_error(f),
                    _ => false,
                },
            },
    {
        match hpke_config(config) {
            Err(e) => Err(e),
            Ok(ids) => derive_outcome(run_hpke_derive(ids, ikm)),
        }
    }
}

/// The key length of an AEAD.
fn aead_key_length(alg: AeadType) -> (r: usize)
    ensures
        r == aead_key_len(alg),
{
    match alg {
        AeadType::Aes128Gcm => 16,
        AeadType::Aes256Gcm => 32,
        AeadType::ChaCha20Poly1305 => 32,
    }
}

/// Whether the AEAD takes a message of `n` bytes.
fn takes_message(alg: AeadType, n: usize) -> (r: bool)
    ensures
        r == aead_takes_message(alg, n as nat),
{
    match alg {
        AeadType::ChaCha20Poly1305 => n as u64 <= 0xffff_ffff,
        _ => (n as u64) / 16 < 0xffff_fffe,
    }
}

/// Whether the AEAD takes `n` bytes of additional data.
fn takes_aad(alg: AeadType, n: usize) -> (r: bool)
    ensures
        r == aead_takes_aad(alg, n as nat),
{
    match alg {
        AeadType::ChaCha20Poly1305 => n as u64 <= 0xffff_ffff,
        _ => true,
    }
}

/// The error for a failure to open.
pub open spec fn open_error(f: HpkeFailure) -> CryptoError {
    match f {
        HpkeFailure::InvalidConfig => CryptoError::ReceiverSetupError,
        HpkeFailure::Other => CryptoError::HpkeDecryptionError,
    }
}

/// The error for a failure to derive a key pair.
pub open spec fn derive_error(f: HpkeFailure) -> CryptoError {
    match f {
        HpkeFailure::InvalidConfig => CryptoError::InvalidLength,
        HpkeFailure::Other => CryptoError::CryptoLibraryError,
    }
}

/// The error for a failure to export at the receiver.
pub open spec fn receive_export_error(f: ExportFailure) -> CryptoError {
    match f {
        ExportFailure::Setup => CryptoError::ReceiverSetupError,
        ExportFailure::Export => CryptoError::ExporterError,
    }
}

/// What key generation returns for each outcome of the call.
pub fn key_gen_outcome(outcome: Result<(Vec<u8>, Vec<u8>), KeyGenFailure>) -> (r: Result<
    (Vec<u8>, Vec<u8>),
    CryptoError,
>)
    ensures
        r == match outcome {
            Ok(pair) => Ok::<(Vec<u8>, Vec<u8>), CryptoError>(pair),
            Err(KeyGenFailure::Lock) => Err(CryptoError::CryptoLibraryError),
            Err(KeyGenFailure::KeyGen) => Err(CryptoError::SigningError),
        },
{
    match outcome {
        Ok(pair) => Ok(pair),
        Err(KeyGenFailure::Lock) => Err(CryptoError::CryptoLibraryError),
        Err(KeyGenFailure::KeyGen) => Err(CryptoError::SigningError),
    }
}

/// What sealing returns for each outcome of the call.
pub fn seal_outcome(outcome: Result<(Vec<u8>, Vec<u8>), HpkeFailure>) -> (r: Result<
    HpkeCiphertext,
    CryptoError,
>)
    ensures
        match (outcome, r) {
            (Ok((enc, ct)), Ok(c)) => c.kem_output@ == enc@ && c.ciphertext@ == ct@,
            (Err(HpkeFailure::InvalidConfig), Err(e)) => e == CryptoError::SenderSetupError,
            (Err(HpkeFailure::Other), Err(e)) => e == CryptoError::HpkeEncryptionError,
            _ => false,
        },
{
    match outcome {
        Ok((enc, ct)) => Ok(HpkeCiphertext { kem_output: enc, ciphertext: ct }),
        Err(HpkeFailure::InvalidConfig) => Err(CryptoError::SenderSetupError),
        Err(HpkeFailure::Other) => Err(CryptoError::HpkeEncryptionError),
    }
}

/// What opening returns for each outcome of the call.
pub fn open_outcome(outcome: Result<Vec<u8>, HpkeFailure>) -> (r: Result<Vec<u8>, CryptoError>)
    ensures
        r == match outcome {
            Ok(v) => Ok::<Vec<u8>, CryptoError>(v),
            Err(f) => Err(open_error(f)),
        },
{
    match outcome {
        Ok(v) => Ok(v),
        Err(HpkeFailure::InvalidConfig) => Err(CryptoError::ReceiverSetupError),
        Err(HpkeFailure::Other) => Err(CryptoError::HpkeDecryptionError),
    }
}

/// What exporting at the sender returns for each outcome of the call.
pub fn send_export_outcome(outcome: Result<(Vec<u8>, Vec<u8>), ExportFailure>) -> (r: Result<
    (Vec<u8>, SecretVLBytes),
    CryptoError,
>)
    ensures
        match (outcome, r) {
            (Ok((enc, secret)), Ok((e, s))) => e@ == enc@ && secret_contents(s) == secret@,
            (Err(ExportFailure::Setup), Err(e)) => e == CryptoError::SenderSetupError,
            (Err(ExportFailure::Export), Err(e)) => e == CryptoError::ExporterError,
            _ => false,
        },
{
    match outcome {
        Ok((enc, secret)) => Ok((enc, into_secret(secret))),
        Err(ExportFailure::Setup) => Err(CryptoError::SenderSetupError),
        Err(ExportFailure::Export) => Err(CryptoError::ExporterError),
    }
}

/// What exporting at the receiver returns for each outcome of the call.
pub fn receive_export_outcome(outcome: Result<Vec<u8>, ExportFailure>) -> (r: Result<
    SecretVLBytes,
    CryptoError,
>)
    ensures
        match (outcome, r) {
            (Ok(secret), Ok(s)) => secret_contents(s) == secret@,
            (Err(f), Err(e)) => e == receive_export_error(f),
            _ => false,
        },
{
    match outcome {
        Ok(secret) => Ok(into_secret(secret)),
        Err(ExportFailure::Setup) => Err(CryptoError::ReceiverSetupError),
        Err(ExportFailure::Export) => Err(CryptoError::ExporterError),
    }
}

/// What deriving a key pair returns for each outcome of the call.
pub fn derive_outcome(outcome: Result<(Vec<u8>, Vec<u8>), HpkeFailure>) -> (r: Result<
    HpkeKeyPair,
    CryptoError,
>)
    ensures
        match (outcome, r) {
            (Ok((sk, pk)), Ok(pair)) => secret_contents(pair.private) == sk@ && pair.public@ == pk@,
            (Err(f), Err(e)) => e == derive_error(f),
            _ => false,
        },
{
    match outcome {
        Ok((sk, pk)) => Ok(HpkeKeyPair { private: into_secret(sk), public: pk }),
        Err(HpkeFailure::InvalidConfig) => Err(CryptoError::InvalidLength),
        Err(HpkeFailure::Other) => Err(CryptoError::CryptoLibraryError),
    }
}

/// Signing succeeds exactly with Ed25519, a key of 32 bytes and data that 32-bit lengths
/// reach, and then it gives the Ed25519 signature. What is wrong is named: the scheme,
/// then the key, then the data.
pub proof fn signing_succeeds_iff(scheme: SignatureScheme, data: Seq<u8>, key: Seq<u8>)
    ensures
        sign_result(scheme, data, key) is Ok <==> scheme == SignatureScheme::ED25519 && key.len()
            == 32 && data.len() <= 0xffff_ffff,
        match sign_result(scheme, data, key) {
            Ok(signature) => signature == ed25519_signature(data, key),
            Err(CryptoError::UnsupportedSignatureScheme) => scheme != SignatureScheme::ED25519,
            Err(CryptoError::InvalidLength) => scheme == SignatureScheme::ED25519 && key.len()
                != 32,
            Err(CryptoError::SigningError) => key.len() == 32 && data.len() > 0xffff_ffff,
            Err(_) => false,
        },
{
}

/// A signature verifies exactly with Ed25519, a public key of 32 bytes, a signature of 64
/// bytes and data that 32-bit lengths reach, where Ed25519 accepts it. A signature of the
/// right form that is not accepted is called invalid.
pub proof fn verifying_succeeds_iff(
    scheme: SignatureScheme,
    data: Seq<u8>,
    public: Seq<u8>,
    signature: Seq<u8>,
)
    ensures
        verify_result(scheme, data, public, signature) is Ok <==> scheme
            == SignatureScheme::ED25519 && public.len() == 32 && signature.len() == 64
            && data.len() <= 0xffff_ffff && ed25519_accepts(data, public, signature),
        match verify_result(scheme, data, public, signature) {
            Ok(_) => true,
            Err(CryptoError::UnsupportedSignatureScheme) => scheme != SignatureScheme::ED25519,
            Err(CryptoError::InvalidLength) => scheme == SignatureScheme::ED25519 && (public.len()
                != 32 || signature.len() != 64),
            Err(CryptoError::SigningError) => public.len() == 32 && signature.len() == 64
                && data.len() > 0xffff_ffff,
            Err(CryptoError::InvalidSignature) => public.len() == 32 && signature.len() == 64
                && data.len() <= 0xffff_ffff && !ed25519_accepts(data, public, signature),
            Err(_) => false,
        },
{
}

/// Encryption succeeds exactly with a nonce of 12 bytes, a key of 16 bytes for AES-128 and
/// of 32 bytes otherwise, and data and additional data that the AEAD takes. It gives the
/// ciphertext and then the tag.
pub proof fn encryption_succeeds_iff(
    alg: AeadType,
    key: Seq<u8>,
    data: Seq<u8>,
    nonce: Seq<u8>,
    aad: Seq<u8>,
)
    ensures
        ({
            let fits = nonce.len() == 12 && key.len() == if alg == AeadType::Aes128Gcm {
                16int
            } else {
                32
            };
            let taken = match alg {
                AeadType::ChaCha20Poly1305 => data.len() <= 0xffff_ffff && aad.len()
                    <= 0xffff_ffff,
                _ => data.len() < 16 * 0xffff_fffe,
            };
            let r = aead_encrypt_result(alg, key, data, nonce, aad);
            &&& r is Ok <==> fits && taken
            &&& r == Err::<Seq<u8>, CryptoError>(CryptoError::InvalidLength) <==> !fits
            &&& r == Err::<Seq<u8>, CryptoError>(CryptoError::CryptoLibraryError) <==> fits
                && !taken
            &&& r matches Ok(sealed) ==> sealed == aead_sealed(alg, key, nonce, aad, data).0
                + aead_sealed(alg, key, nonce, aad, data).1
        }),
{
}

/// Decryption splits off the last 16 bytes as the tag. It succeeds only with a nonce of 12
/// bytes and a key of the length that the AEAD has, and what comes out is what the AEAD
/// opens. Where the AEAD opens nothing, decryption has failed.
pub proof fn decryption_splits_off_the_tag(
    alg: AeadType,
    key: Seq<u8>,
    ciphertext: Seq<u8>,
    tag: Seq<u8>,
    nonce: Seq<u8>,
    aad: Seq<u8>,
)
    requires
        tag.len() == 16,
        nonce.len() == 12,
        key.len() == if alg == AeadType::Aes128Gcm {
            16int
        } else {
            32
        },
        aad.len() <= 0xffff_ffff,
        ciphertext.len() <= 0xffff_ffff,
    ensures
        aead_decrypt_result(alg, key, ciphertext + tag, nonce, aad) == (match aead_opened(
            alg,
            key,
            nonce,
            aad,
            ciphertext,
            tag,
        ) {
            Some(data) => Ok::<Seq<u8>, CryptoError>(data),
            None => Err(CryptoError::AeadDecryptionError),
        }),
{
    let sealed = ciphertext + tag;
    assert(sealed.take(sealed.len() - 16) =~= ciphertext);
    assert(sealed.skip(sealed.len() - 16) =~= tag);
}

/// What is too short for a tag, a nonce of another length than 12 and a key of another
/// length than the AEAD has are refused for their length.
pub proof fn decryption_refuses_wrong_lengths(
    alg: AeadType,
    key: Seq<u8>,
    sealed: Seq<u8>,
    nonce: Seq<u8>,
    aad: Seq<u8>,
)
    requires
        sealed.len() < 16 || nonce.len() != 12 || key.len() != if alg == AeadType::Aes128Gcm {
            16int
        } else {
            32
        },
    ensures
        aead_decrypt_result(alg, key, sealed, nonce, aad) == Err::<Seq<u8>, CryptoError>(
            CryptoError::InvalidLength,
        ),
{
}

/// The provider supports two suites: those with X25519 or ML-KEM-768 with X25519 whose
/// AEAD is ChaCha20-Poly1305 and whose signatures are Ed25519.
pub proof fn two_suites_are_supported(cs: Ciphersuite)
    ensures
        suite_supported(cs) <==> ciphersuite_codepoint(cs) == 0x0003 || ciphersuite_codepoint(cs)
            == 0xFE02,
{
}

/// Each hash is computed by the function of its name, and a digest has as many bytes as
/// the name has bits, by eight.
pub proof fn hashes_are_told_apart(data: Seq<u8>)
    ensures
        digest(HashType::Sha2_256, data) == sha256_digest(data),
        digest(HashType::Sha2_384, data) == sha384_digest(data),
        digest(HashType::Sha2_512, data) == sha512_digest(data),
        8 * hash_len(HashType::Sha2_256) == 256,
        8 * hash_len(HashType::Sha2_384) == 384,
        8 * hash_len(HashType::Sha2_512) == 512,
{
}

/// A configuration has identifiers exactly when its KEM is no draft, and different
/// configurations have different identifiers. Key pairs can be derived exactly for P-256
/// and X25519.
pub proof fn configurations_have_their_identifiers(a: HpkeConfig, b: HpkeConfig)
    ensures
        config_ids(a) is Some <==> !kem_is_draft(a.0),
        config_ids(a) is Some && config_ids(a) == config_ids(b) ==> a == b,
        config_ids(a) matches Some(ids) ==> (kem_derives(ids) <==> a.0 == HpkeKemType::DhKemP256
            || a.0 == HpkeKemType::DhKem25519),
        config_ids(a) matches Some(ids) ==> ids_known(ids) && (ids.aead == 0xffff <==> a.2
            == HpkeAeadType::Export),
{
}

/// A failure is reported by the step that it belongs to: a wrong configuration as one of
/// the set-up, anything else as one of the operation itself.
pub proof fn failures_are_reported_by_their_step(f: HpkeFailure, e: ExportFailure)
    ensures
        open_error(f) == CryptoError::ReceiverSetupError <==> f == HpkeFailure::InvalidConfig,
        open_error(f) == CryptoError::HpkeDecryptionError <==> f == HpkeFailure::Other,
        derive_error(f) == CryptoError::InvalidLength <==> f == HpkeFailure::InvalidConfig,
        derive_error(f) == CryptoError::CryptoLibraryError <==> f == HpkeFailure::Other,
        receive_export_error(e) == CryptoError::ReceiverSetupError <==> e == ExportFailure::Setup,
        receive_export_error(e) == CryptoError::ExporterError <==> e == ExportFailure::Export,
{
}

/// The provider has one outcome for each signing, and a signature that it makes verifies
/// under the public key of the signing key.
pub proof fn provider_verifies_what_it_signs(
    provider: CryptoProvider,
    scheme: SignatureScheme,
    data: Seq<u8>,
    key: Seq<u8>,
    outcome: Result<Seq<u8>, CryptoError>,
    other: Result<Seq<u8>, CryptoError>,
)
    requires
        provider.may_sign(scheme, data, key, outcome),
    ensures
        provider.may_sign(scheme, data, key, other) ==> outcome == other,
        outcome is Ok ==> scheme is ED25519,
        outcome matches Ok(signature) ==> provider.verification(
            scheme,
            data,
            ed25519_public_key(key),
            signature,
        ) is Ok,
{
}

} // verus!
