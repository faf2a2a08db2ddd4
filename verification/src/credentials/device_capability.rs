//! The signed advertisement of what a device can do.
//!
//! A device publishes a `DeviceCapability` so that its peers, and a server, can
//! pick a ciphersuite that everybody speaks. The signature covers every field but
//! itself.
use crate::crypto::{ed25519_public_key, signing_view, CryptoProvider, SignatureProvider};
use crate::group::conversation_upgrade::{lemma_first_suite, lemma_first_suite_is_first};
use crate::text::{hex_byte, push_hex_byte, text_from_utf8};
use crate::tls::{
    be_bytes, get_suite_list, get_suite_list_from_slice, get_u16, get_u8, get_vector,
    get_vector_from_slice, integer_round_trip, lemma_assoc, lemma_be_bytes_len, lemma_int_consumes,
    lemma_one_byte, lemma_pow256, lemma_suite_list_consumes, lemma_suite_list_len, lemma_vector_consumes,
    lemma_vector_len, length_prefix_len, put_suite_list, put_u16, put_u8,
    put_vector, read_int_spec, read_suite_list_from_slice_spec, read_suite_list_spec,
    read_vector_from_slice_spec, read_vector_spec, suite_list_bytes, suite_list_round_trip,
    try_put_suite_list, try_put_vector, vector_bytes, vector_round_trip, Decoded, ReadError,
    ReadErrorView, TlsError, TlsErrorView, VLBytes, MAX_VECTOR_LENGTH,
};
use crate::types::{Ciphersuite, CryptoError, SignatureScheme};
use crate::wire::Wire;
use vstd::prelude::*;
use vstd::string::*;
use vstd::utf8::*;

verus! {

/// The signed capability advertisement of one device.
#[derive(Debug, PartialEq, Eq)]
pub struct DeviceCapability {
    /// The MLS version that the device speaks.
    pub mls_version: u16,
    /// The classical ciphersuites that the device speaks.
    pub classical_ciphersuites: Vec<Ciphersuite>,
    /// The post-quantum and hybrid ciphersuites that the device speaks.
    pub pq_ciphersuites: Vec<Ciphersuite>,
    /// Whether the device takes part in dual sessions.
    pub apq_supported: bool,
    /// Whether the device can sign with ML-DSA.
    pub pq_auth_supported: bool,
    /// The crypto provider that the device uses.
    pub provider_id: String,
    /// The signature over the other fields. Empty until the device has signed.
    pub capability_signature: VLBytes,
}

/// A `DeviceCapability` with its lists and strings as sequences.
#[verifier::ext_equal]
pub struct DeviceCapabilityView {
    /// See `DeviceCapability::mls_version`.
    pub mls_version: u16,
    /// See `DeviceCapability::classical_ciphersuites`.
    pub classical_ciphersuites: Seq<Ciphersuite>,
    /// See `DeviceCapability::pq_ciphersuites`.
    pub pq_ciphersuites: Seq<Ciphersuite>,
    /// See `DeviceCapability::apq_supported`.
    pub apq_supported: bool,
    /// See `DeviceCapability::pq_auth_supported`.
    pub pq_auth_supported: bool,
    /// See `DeviceCapability::provider_id`.
    pub provider_id: Seq<char>,
    /// See `DeviceCapability::capability_signature`.
    pub capability_signature: Seq<u8>,
}

impl View for DeviceCapability {
    type V = DeviceCapabilityView;

    open spec fn view(&self) -> DeviceCapabilityView {
        DeviceCapabilityView {
            mls_version: self.mls_version,
            classical_ciphersuites: self.classical_ciphersuites@,
            pq_ciphersuites: self.pq_ciphersuites@,
            apq_supported: self.apq_supported,
            pq_auth_supported: self.pq_auth_supported,
            provider_id: self.provider_id@,
            capability_signature: self.capability_signature@,
        }
    }
}

/// The first suite of `list` of which `p` holds.
pub open spec fn first_suite(
    list: Seq<Ciphersuite>,
    p: spec_fn(Ciphersuite) -> bool,
) -> Option<Ciphersuite>
    decreases list.len(),
{
    if list.len() == 0 {
        None
    } else if p(list[0]) {
        Some(list[0])
    } else {
        first_suite(list.skip(1), p)
    }
}

/// `true` if every one of `lists` contains `cs`.
pub open spec fn every_list_contains(lists: Seq<Seq<Ciphersuite>>, cs: Ciphersuite) -> bool {
    forall|i: int| 0 <= i < lists.len() ==> (#[trigger] lists[i]).contains(cs)
}

/// Whether `list` contains `suite`.
pub fn list_contains(list: &[Ciphersuite], suite: Ciphersuite) -> (r: bool)
    ensures
        r == list@.contains(suite),
{
    let mut i: usize = 0;
    while i < list.len()
        invariant
            i <= list@.len(),
            forall|j: int| 0 <= j < i ==> list@[j] != suite,
        decreases list@.len() - i,
    {
        if list[i] == suite {
            assert(list@[i as int] == suite);
            return true;
        }
        i += 1;
    }
    false
}

/// A boolean on the wire: one byte, `0` or `1`.
pub open spec fn bool_byte(b: bool) -> u8 {
    if b {
        1
    } else {
        0
    }
}

/// The boolean at the front of `s`.
pub open spec fn read_bool_spec(s: Seq<u8>) -> Decoded<bool> {
    match read_int_spec(s, 1) {
        Err(e) => Err(e),
        Ok((n, rest)) => if n == 0 {
            Ok((false, rest))
        } else if n == 1 {
            Ok((true, rest))
        } else {
            Err(
                ReadErrorView {
                    error: TlsErrorView::DecodingError(
                        "invalid bool byte 0x"@ + hex_byte(n as u8),
                    ),
                    unread: rest,
                },
            )
        },
    }
}

/// The bytes that the signature covers: every field but the signature.
pub open spec fn capability_payload(c: DeviceCapabilityView) -> Seq<u8> {
    be_bytes(c.mls_version as nat, 2) + suite_list_bytes(c.classical_ciphersuites)
        + suite_list_bytes(c.pq_ciphersuites) + be_bytes(bool_byte(c.apq_supported) as nat, 1)
        + be_bytes(bool_byte(c.pq_auth_supported) as nat, 1) + vector_bytes(
        encode_utf8(c.provider_id),
    )
}

/// The bytes of a capability on the wire.
pub open spec fn capability_bytes(c: DeviceCapabilityView) -> Seq<u8> {
    capability_payload(c) + vector_bytes(c.capability_signature)
}

/// `true` if every field but the signature is short enough for the wire.
pub open spec fn payload_encodable(c: DeviceCapabilityView) -> bool {
    &&& 2 * c.classical_ciphersuites.len() <= MAX_VECTOR_LENGTH
    &&& 2 * c.pq_ciphersuites.len() <= MAX_VECTOR_LENGTH
    &&& encode_utf8(c.provider_id).len() <= MAX_VECTOR_LENGTH
}

/// `true` if every field is short enough for the wire.
pub open spec fn capability_encodable(c: DeviceCapabilityView) -> bool {
    payload_encodable(c) && c.capability_signature.len() <= MAX_VECTOR_LENGTH
}

/// What is written of a capability with fields that are too long: those before the
/// first of them.
pub open spec fn capability_begun(c: DeviceCapabilityView) -> Seq<u8> {
    let version = be_bytes(c.mls_version as nat, 2);
    let classical = version + suite_list_bytes(c.classical_ciphersuites);
    let flags = classical + suite_list_bytes(c.pq_ciphersuites) + be_bytes(
        bool_byte(c.apq_supported) as nat,
        1,
    ) + be_bytes(bool_byte(c.pq_auth_supported) as nat, 1);
    if 2 * c.classical_ciphersuites.len() > MAX_VECTOR_LENGTH {
        version
    } else if 2 * c.pq_ciphersuites.len() > MAX_VECTOR_LENGTH {
        classical
    } else if encode_utf8(c.provider_id).len() > MAX_VECTOR_LENGTH {
        flags
    } else {
        capability_payload(c)
    }
}

/// A list of suites, read from a stream or as a slice decoder reads it.
pub open spec fn read_suites_as(s: Seq<u8>, from_slice: bool) -> Decoded<Seq<Ciphersuite>> {
    if from_slice {
        read_suite_list_from_slice_spec(s)
    } else {
        read_suite_list_spec(s)
    }
}

/// A byte string, read from a stream or as a slice decoder reads it.
pub open spec fn read_vector_as(s: Seq<u8>, from_slice: bool) -> Decoded<Seq<u8>> {
    if from_slice {
        read_vector_from_slice_spec(s)
    } else {
        read_vector_spec(s)
    }
}

/// The capability at the front of `s`, or the first error on the way.
pub open spec fn read_capability_spec(s: Seq<u8>, from_slice: bool) -> Decoded<
    DeviceCapabilityView,
> {
    match read_int_spec(s, 2) {
        Err(e) => Err(e),
        Ok((version, s)) => match read_suites_as(s, from_slice) {
            Err(e) => Err(e),
            Ok((classical, s)) => match read_suites_as(s, from_slice) {
                Err(e) => Err(e),
                Ok((pq, s)) => match read_bool_spec(s) {
                    Err(e) => Err(e),
                    Ok((apq, s)) => match read_bool_spec(s) {
                        Err(e) => Err(e),
                        Ok((pq_auth, s)) => match read_vector_as(s, from_slice) {
                            Err(e) => Err(e),
                            Ok((provider, s)) => if !valid_utf8(provider) {
                                Err(
                                    ReadErrorView {
                                        error: TlsErrorView::DecodingError(
                                            "provider_id is not valid UTF-8"@,
                                        ),
                                        unread: s,
                                    },
                                )
                            } else {
                                match read_vector_as(s, from_slice) {
                                    Err(e) => Err(e),
                                    Ok((signature, s)) => Ok(
                                        (
                                            DeviceCapabilityView {
                                                mls_version: version as u16,
                                                classical_ciphersuites: classical,
                                                pq_ciphersuites: pq,
                                                apq_supported: apq,
                                                pq_auth_supported: pq_auth,
                                                provider_id: decode_utf8(provider),
                                                capability_signature: signature,
                                            },
                                            s,
                                        ),
                                    ),
                                }
                            },
                        },
                    },
                },
            },
        },
    }
}

/// A capability reads back from its encoding, whatever follows, with either
/// decoder.
#[verifier::spinoff_prover]
#[verifier::rlimit(40)]
pub proof fn capability_round_trip(c: DeviceCapabilityView, rest: Seq<u8>, from_slice: bool)
    requires
        capability_encodable(c),
    ensures
        read_capability_spec(capability_bytes(c) + rest, from_slice) == Ok::<
            (DeviceCapabilityView, Seq<u8>),
            ReadErrorView,
        >((c, rest)),
{
    let s6 = vector_bytes(c.capability_signature) + rest;
    let provider = encode_utf8(c.provider_id);
    let s5 = vector_bytes(provider) + s6;
    let b2 = be_bytes(bool_byte(c.pq_auth_supported) as nat, 1);
    let s4 = b2 + s5;
    let b1 = be_bytes(bool_byte(c.apq_supported) as nat, 1);
    let s3 = b1 + s4;
    let s2 = suite_list_bytes(c.pq_ciphersuites) + s3;
    let s1 = suite_list_bytes(c.classical_ciphersuites) + s2;
    let s0 = be_bytes(c.mls_version as nat, 2) + s1;
    let p1 = be_bytes(c.mls_version as nat, 2);
    let p2 = p1 + suite_list_bytes(c.classical_ciphersuites);
    let p3 = p2 + suite_list_bytes(c.pq_ciphersuites);
    let p4 = p3 + b1;
    let p5 = p4 + b2;
    assert(capability_bytes(c) + rest == s0) by {
        lemma_assoc(p5 + vector_bytes(provider), vector_bytes(c.capability_signature), rest);
        lemma_assoc(p5, vector_bytes(provider), s6);
        lemma_assoc(p4, b2, s5);
        lemma_assoc(p3, b1, s4);
        lemma_assoc(p2, suite_list_bytes(c.pq_ciphersuites), s3);
        lemma_assoc(p1, suite_list_bytes(c.classical_ciphersuites), s2);
    }
    lemma_pow256();
    integer_round_trip(c.mls_version as nat, 2, s1);
    suite_list_round_trip(c.classical_ciphersuites, s2);
    suite_list_round_trip(c.pq_ciphersuites, s3);
    integer_round_trip(bool_byte(c.apq_supported) as nat, 1, s4);
    integer_round_trip(bool_byte(c.pq_auth_supported) as nat, 1, s5);
    vector_round_trip(provider, s6);
    encode_utf8_valid_utf8(c.provider_id);
    encode_utf8_decode_utf8(c.provider_id);
    vector_round_trip(c.capability_signature, rest);
}

/// What is behind a capability is shorter.
pub proof fn lemma_capability_consumes(s: Seq<u8>)
    ensures
        read_capability_spec(s, false) matches Ok((_, rest)) ==> rest.len() < s.len(),
{
    lemma_int_consumes(s, 2);
    if let Ok((_, s1)) = read_int_spec(s, 2) {
        lemma_suite_list_consumes(s1);
        if let Ok((_, s2)) = read_suite_list_spec(s1) {
            lemma_suite_list_consumes(s2);
            if let Ok((_, s3)) = read_suite_list_spec(s2) {
                lemma_int_consumes(s3, 1);
                if let Ok((_, s4)) = read_bool_spec(s3) {
                    lemma_int_consumes(s4, 1);
                    if let Ok((_, s5)) = read_bool_spec(s4) {
                        lemma_vector_consumes(s5);
                        if let Ok((_, s6)) = read_vector_spec(s5) {
                            lemma_vector_consumes(s6);
                        }
                    }
                }
            }
        }
    }
}

/// The signature is not among the bytes that are signed: capabilities that differ
/// in nothing else have the same payload.
pub proof fn payload_leaves_signature_out(c: DeviceCapabilityView, signature: Seq<u8>)
    ensures
        capability_payload(
            DeviceCapabilityView { capability_signature: signature, ..c },
        ) == capability_payload(c),
{
}

/// The signature covers every other field: capabilities with the same payload differ
/// at most in their signatures.
pub proof fn payload_tells_fields_apart(c: DeviceCapabilityView, d: DeviceCapabilityView)
    requires
        payload_encodable(c),
        payload_encodable(d),
        capability_payload(c) == capability_payload(d),
    ensures
        c == (DeviceCapabilityView { capability_signature: c.capability_signature, ..d }),
{
    let bare_c = DeviceCapabilityView { capability_signature: Seq::empty(), ..c };
    let bare_d = DeviceCapabilityView { capability_signature: Seq::empty(), ..d };
    payload_leaves_signature_out(c, Seq::empty());
    payload_leaves_signature_out(d, Seq::empty());
    capability_round_trip(bare_c, Seq::empty(), false);
    capability_round_trip(bare_d, Seq::empty(), false);
    assert(bare_c == bare_d);
}

/// How many bytes the payload takes.
pub open spec fn payload_len(c: DeviceCapabilityView) -> nat {
    let classical = 2 * c.classical_ciphersuites.len();
    let pq = 2 * c.pq_ciphersuites.len();
    let provider = encode_utf8(c.provider_id).len();
    2 + length_prefix_len(classical) + classical + length_prefix_len(pq) + pq + 1 + 1
        + length_prefix_len(provider) + provider
}

/// The length of the payload, told from the fields.
pub proof fn lemma_payload_len(c: DeviceCapabilityView)
    ensures
        capability_payload(c).len() == payload_len(c),
{
    lemma_be_bytes_len(c.mls_version as nat, 2);
    lemma_be_bytes_len(bool_byte(c.apq_supported) as nat, 1);
    lemma_be_bytes_len(bool_byte(c.pq_auth_supported) as nat, 1);
    lemma_suite_list_len(c.classical_ciphersuites);
    lemma_suite_list_len(c.pq_ciphersuites);
    lemma_vector_len(encode_utf8(c.provider_id));
}

/// What can be wrong with a credential.
#[derive(Debug, Clone, Copy, PartialEq, Eq, Structural)]
pub enum CredentialError {
    /// The signature is missing, malformed or does not verify.
    InvalidSignature,
}

/// `true` if the capability carries a signature that `crypto` accepts.
pub open spec fn capability_verifies<C: SignatureProvider>(
    crypto: &C,
    c: DeviceCapabilityView,
    scheme: SignatureScheme,
    public: Seq<u8>,
) -> bool {
    c.capability_signature.len() > 0 && crypto.verification(
        scheme,
        capability_payload(c),
        public,
        c.capability_signature,
    ) is Ok
}

/// A capability after signing came to `outcome`, and what is said of it.
pub open spec fn signed_outcome(
    c: DeviceCapabilityView,
    outcome: Result<Seq<u8>, CryptoError>,
) -> (DeviceCapabilityView, Result<(), CredentialError>) {
    match outcome {
        Ok(signature) => (
            DeviceCapabilityView { capability_signature: signature, ..c },
            Ok(()),
        ),
        Err(_) => (c, Err(CredentialError::InvalidSignature)),
    }
}

/// What the provider of this library signs, it accepts under the public key that goes
/// with the signing key.
pub proof fn signed_capabilities_verify(
    crypto: CryptoProvider,
    c: DeviceCapabilityView,
    scheme: SignatureScheme,
    key: Seq<u8>,
    outcome: Result<Seq<u8>, CryptoError>,
)
    requires
        crypto.may_sign(scheme, capability_payload(c), key, outcome),
        outcome is Ok,
    ensures
        capability_verifies(
            &crypto,
            signed_outcome(c, outcome).0,
            scheme,
            ed25519_public_key(key),
        ),
{
    payload_leaves_signature_out(c, outcome->Ok_0);
}

/// The lists of all peers behind the first one.
pub open spec fn other_lists(peers: Seq<&DeviceCapability>, pq: bool) -> Seq<Seq<Ciphersuite>> {
    Seq::new(
        (peers.len() - 1) as nat,
        |i: int|
            if pq {
                peers[i + 1]@.pq_ciphersuites
            } else {
                peers[i + 1]@.classical_ciphersuites
            },
    )
}

/// The first suite of the first peer's list that every other peer lists too.
pub open spec fn common_suite(peers: Seq<&DeviceCapability>, pq: bool) -> Option<Ciphersuite> {
    first_suite(
        if pq {
            peers[0]@.pq_ciphersuites
        } else {
            peers[0]@.classical_ciphersuites
        },
        |cs: Ciphersuite| every_list_contains(other_lists(peers, pq), cs),
    )
}

impl DeviceCapability {
    /// A new capability, not signed yet.
    pub fn new(
        mls_version: u16,
        classical_ciphersuites: Vec<Ciphersuite>,
        pq_ciphersuites: Vec<Ciphersuite>,
        apq_supported: bool,
        pq_auth_supported: bool,
        provider_id: String,
    ) -> (r: Self)
        ensures
            r@ == (DeviceCapabilityView {
                mls_version,
                classical_ciphersuites: classical_ciphersuites@,
                pq_ciphersuites: pq_ciphersuites@,
                apq_supported,
                pq_auth_supported,
                provider_id: provider_id@,
                capability_signature: Seq::empty(),
            }),
    {
        DeviceCapability {
            mls_version,
            classical_ciphersuites,
            pq_ciphersuites,
            apq_supported,
            pq_auth_supported,
            provider_id,
            capability_signature: VLBytes::new(Vec::new()),
        }
    }

    /// Every field but the signature, in the form on the wire. This is what the
    /// device signs.
    pub fn serializable_payload(&self) -> (r: Vec<u8>)
        requires
            payload_encodable(self@),
        ensures
            r@ == capability_payload(self@),
    {
        let mut buf: Vec<u8> = Vec::new();
        self.put_payload(&mut buf);
        assert(Seq::<u8>::empty() + capability_payload(self@) =~= capability_payload(self@));
        buf
    }

    /// Appends the payload.
    fn put_payload(&self, out: &mut Vec<u8>)
        requires
            payload_encodable(self@),
        ensures
            final(out)@ == old(out)@ + capability_payload(self@),
    {
        let ghost start = out@;
        put_u16(out, self.mls_version);
        put_suite_list(out, self.classical_ciphersuites.as_slice());
        put_suite_list(out, self.pq_ciphersuites.as_slice());
        put_u8(out, encode_bool(self.apq_supported));
        put_u8(out, encode_bool(self.pq_auth_supported));
        put_vector(out, self.provider_id.as_str().as_bytes());
        assert(out@ =~= start + capability_payload(self@));
    }

    /// How many bytes the payload takes.
    fn payload_tls_serialized_len(&self) -> (r: usize)
        requires
            payload_encodable(self@),
            payload_len(self@) <= usize::MAX,
        ensures
            r == payload_len(self@),
    {
        let classical: usize = 2 * self.classical_ciphersuites.len();
        let pq: usize = 2 * self.pq_ciphersuites.len();
        let provider: usize = self.provider_id.as_str().as_bytes().len();
        2 + prefix_len(classical) + classical + prefix_len(pq) + pq + 1 + 1 + prefix_len(provider)
            + provider
    }

    /// Whether the device lists a post-quantum or hybrid suite.
    pub fn supports_pq(&self) -> (r: bool)
        ensures
            r == (self@.pq_ciphersuites.len() > 0),
    {
        self.pq_ciphersuites.len() > 0
    }

    /// Whether the device takes part in dual sessions.
    pub fn supports_apq(&self) -> (r: bool)
        ensures
            r == self@.apq_supported,
    {
        self.apq_supported
    }

    /// Whether there is a signature at all. It is not verified here.
    pub fn is_signed(&self) -> (r: bool)
        ensures
            r == (self@.capability_signature.len() > 0),
    {
        self.capability_signature.as_slice().len() > 0
    }

    /// Signs the payload and puts the signature in its place.
    pub fn sign<C: SignatureProvider>(
        &mut self,
        signature_scheme: SignatureScheme,
        signing_key: &[u8],
        crypto: &C,
    ) -> (r: Result<(), CredentialError>)
        requires
            payload_encodable(old(self)@),
        ensures
            exists|outcome: Result<Seq<u8>, CryptoError>| #[trigger]
                crypto.may_sign(
                    signature_scheme,
                    capability_payload(old(self)@),
                    signing_key@,
                    outcome,
                ) && (final(self)@, r) == signed_outcome(old(self)@, outcome),
    {
        let payload = self.serializable_payload();
        let outcome = crypto.sign(signature_scheme, payload.as_slice(), signing_key);
        assert(crypto.may_sign(
            signature_scheme,
            capability_payload(old(self)@),
            signing_key@,
            signing_view(outcome),
        ));
        self.take_signature(outcome)
    }

    /// Puts what came of signing in the place of the signature.
    pub fn take_signature(&mut self, outcome: Result<Vec<u8>, CryptoError>) -> (r: Result<
        (),
        CredentialError,
    >)
        ensures
            (final(self)@, r) == signed_outcome(old(self)@, signing_view(outcome)),
    {
        match outcome {
            Ok(signature) => {
                self.capability_signature = VLBytes::new(signature);
                Ok(())
            },
            Err(e) => Err(map_crypto_error(e)),
        }
    }

    /// Verifies the signature over the payload of the current fields.
    pub fn verify<C: SignatureProvider>(
        &self,
        signature_scheme: SignatureScheme,
        public_key: &[u8],
        crypto: &C,
    ) -> (r: Result<(), CredentialError>)
        requires
            self@.capability_signature.len() > 0 ==> payload_encodable(self@),
        ensures
            r == (if capability_verifies(crypto, self@, signature_scheme, public_key@) {
                Ok::<(), CredentialError>(())
            } else {
                Err(CredentialError::InvalidSignature)
            }),
    {
        if !self.is_signed() {
            return Err(CredentialError::InvalidSignature);
        }
        let payload = self.serializable_payload();
        match crypto.verify_signature(
            signature_scheme,
            payload.as_slice(),
            public_key,
            self.capability_signature.as_slice(),
        ) {
            Ok(()) => Ok(()),
            Err(e) => Err(map_crypto_error(e)),
        }
    }

    /// The best suite that all peers list: a post-quantum one if there is one, and
    /// among those the one that the first peer lists first.
    pub fn best_common_ciphersuite(peers: &[&DeviceCapability]) -> (r: Option<Ciphersuite>)
        ensures
            r == (if peers@.len() == 0 {
                None::<Ciphersuite>
            } else if common_suite(peers@, true) is Some {
                common_suite(peers@, true)
            } else {
                common_suite(peers@, false)
            }),
    {
        if peers.len() == 0 {
            return None;
        }
        match Self::first_listed_by_all(peers, true) {
            Some(suite) => Some(suite),
            None => Self::first_listed_by_all(peers, false),
        }
    }

    /// The first suite of the first peer's list that every other peer lists too.
    fn first_listed_by_all(peers: &[&DeviceCapability], pq: bool) -> (r: Option<Ciphersuite>)
        requires
            peers@.len() > 0,
        ensures
            r == common_suite(peers@, pq),
    {
        let list = peers[0].list(pq);
        let ghost p = |cs: Ciphersuite| every_list_contains(other_lists(peers@, pq), cs);
        let mut i: usize = 0;
        assert(list@.skip(0) =~= list@);
        while i < list.len()
            invariant
                i <= list@.len(),
                peers@.len() > 0,
                forall|cs: Ciphersuite| #[trigger]
                    p(cs) == every_list_contains(other_lists(peers@, pq), cs),
                common_suite(peers@, pq) == first_suite(list@, p),
                first_suite(list@, p) == first_suite(list@.skip(i as int), p),
            decreases list@.len() - i,
        {
            let suite = list[i];
            assert(list@.skip(i as int)[0] == suite);
            assert(list@.skip(i as int).skip(1) =~= list@.skip(i + 1));
            if Self::listed_by_others(peers, pq, suite) {
                assert(p(suite));
                return Some(suite);
            }
            assert(!p(suite));
            i += 1;
        }
        None
    }

    /// One of the two lists of suites.
    fn list(&self, pq: bool) -> (r: &[Ciphersuite])
        ensures
            r@ == (if pq {
                self@.pq_ciphersuites
            } else {
                self@.classical_ciphersuites
            }),
    {
        if pq {
            self.pq_ciphersuites.as_slice()
        } else {
            self.classical_ciphersuites.as_slice()
        }
    }

    /// Whether every peer behind the first one lists `suite`.
    fn listed_by_others(peers: &[&DeviceCapability], pq: bool, suite: Ciphersuite) -> (r: bool)
        requires
            peers@.len() > 0,
        ensures
            r == every_list_contains(other_lists(peers@, pq), suite),
    {
        let ghost lists = other_lists(peers@, pq);
        let mut i: usize = 1;
        while i < peers.len()
            invariant
                1 <= i <= peers@.len(),
                lists == other_lists(peers@, pq),
                forall|j: int| 0 <= j < i - 1 ==> (#[trigger] lists[j]).contains(suite),
            decreases peers@.len() - i,
        {
            let list = peers[i].list(pq);
            assert(lists[i - 1] == list@);
            if !list_contains(list, suite) {
                return false;
            }
            i += 1;
        }
        true
    }

    /// How many bytes the capability takes on the wire.
    pub fn tls_serialized_len(&self) -> (r: usize)
        requires
            capability_encodable(self@),
            capability_bytes(self@).len() <= usize::MAX,
        ensures
            r == capability_bytes(self@).len(),
    {
        proof {
            lemma_payload_len(self@);
            lemma_vector_len(self@.capability_signature);
        }
        let signature: usize = self.capability_signature.as_slice().len();
        self.payload_tls_serialized_len() + (prefix_len(signature) + signature)
    }

    /// Appends the capability in its form on the wire, and returns how many bytes
    /// that are. It fails exactly where a field is too long, and then it has appended
    /// the fields before that one.
    pub fn tls_serialize(&self, writer: &mut Vec<u8>) -> (r: Result<usize, TlsError>)
        ensures
            match r {
                Ok(written) => capability_encodable(self@) && final(writer)@ == old(writer)@
                    + capability_bytes(self@) && written == capability_bytes(self@).len(),
                Err(e) => !capability_encodable(self@) && e@ == TlsErrorView::InvalidVectorLength
                    && final(writer)@ == old(writer)@ + capability_begun(self@),
            },
    {
        let ghost start = writer@;
        let before: usize = writer.len();
        put_u16(writer, self.mls_version);
        if let Err(e) = try_put_suite_list(writer, self.classical_ciphersuites.as_slice()) {
            return Err(e);
        }
        if let Err(e) = try_put_suite_list(writer, self.pq_ciphersuites.as_slice()) {
            assert(writer@ =~= start + capability_begun(self@));
            return Err(e);
        }
        put_u8(writer, encode_bool(self.apq_supported));
        put_u8(writer, encode_bool(self.pq_auth_supported));
        if let Err(e) = try_put_vector(writer, self.provider_id.as_str().as_bytes()) {
            assert(writer@ =~= start + capability_begun(self@));
            return Err(e);
        }
        assert(writer@ =~= start + capability_payload(self@));
        if let Err(e) = try_put_vector(writer, self.capability_signature.as_slice()) {
            return Err(e);
        }
        assert(writer@ =~= start + capability_bytes(self@));
        Ok(writer.len() - before)
    }

    /// The capability in its form on the wire.
    pub fn tls_serialize_detached(&self) -> (r: Result<Vec<u8>, TlsError>)
        ensures
            match r {
                Ok(bytes) => capability_encodable(self@) && bytes@ == capability_bytes(self@),
                Err(e) => !capability_encodable(self@) && e@ == TlsErrorView::InvalidVectorLength,
            },
    {
        let mut out: Vec<u8> = Vec::new();
        match self.tls_serialize(&mut out) {
            Ok(_) => {
                assert(Seq::<u8>::empty() + capability_bytes(self@) =~= capability_bytes(self@));
                Ok(out)
            },
            Err(e) => Err(e),
        }
    }

    /// Reads a capability from the front of `reader`, which then holds what has not been
    /// read.
    pub fn tls_deserialize(reader: &mut &[u8]) -> (r: Result<Self, TlsError>)
        ensures
            match (r, read_capability_spec(old(reader)@, false)) {
                (Ok(c), Ok((v, rest))) => c@ == v && final(reader)@ == rest,
                (Err(e), Err(f)) => e@ == f.error && final(reader)@ == f.unread,
                _ => false,
            },
    {
        match Self::read(*reader, false) {
            Ok((c, rest)) => {
                *reader = rest;
                Ok(c)
            },
            Err(e) => {
                *reader = e.unread;
                Err(e.error)
            },
        }
    }

    /// Reads a capability from the front of `bytes`, and returns it with the bytes behind
    /// it.
    pub fn tls_deserialize_bytes(bytes: &[u8]) -> (r: Result<(Self, &[u8]), TlsError>)
        ensures
            match (r, read_capability_spec(bytes@, true)) {
                (Ok((c, rest)), Ok((v, s))) => c@ == v && rest@ == s,
                (Err(e), Err(f)) => e@ == f.error,
                _ => false,
            },
    {
        match Self::read(bytes, true) {
            Ok(x) => Ok(x),
            Err(e) => Err(e.error),
        }
    }

    /// Reads a capability, from a stream or as a slice decoder reads it.
    pub(crate) fn read(bytes: &[u8], from_slice: bool) -> (r: Result<
        (Self, &[u8]),
        ReadError<'_>,
    >)
        ensures
            match (r, read_capability_spec(bytes@, from_slice)) {
                (Ok((c, rest)), Ok((v, s))) => c@ == v && rest@ == s,
                (Err(e), Err(f)) => e@ == f,
                _ => false,
            },
    {
        let (mls_version, bytes) = match get_u16(bytes) {
            Ok(x) => x,
            Err(e) => {
                return Err(e);
            },
        };
        let (classical_ciphersuites, bytes) = match get_suites_as(bytes, from_slice) {
            Ok(x) => x,
            Err(e) => {
                return Err(e);
            },
        };
        let (pq_ciphersuites, bytes) = match get_suites_as(bytes, from_slice) {
            Ok(x) => x,
            Err(e) => {
                return Err(e);
            },
        };
        let (apq_supported, bytes) = match get_bool(bytes) {
            Ok(x) => x,
            Err(e) => {
                return Err(e);
            },
        };
        let (pq_auth_supported, bytes) = match get_bool(bytes) {
            Ok(x) => x,
            Err(e) => {
                return Err(e);
            },
        };
        let (provider_bytes, bytes) = match get_vector_as(bytes, from_slice) {
            Ok(x) => x,
            Err(e) => {
                return Err(e);
            },
        };
        let provider_id = match text_from_utf8(provider_bytes) {
            Some(text) => text,
            None => {
                return Err(
                    ReadError {
                        error: TlsError::DecodingError("provider_id is not valid UTF-8".to_owned()),
                        unread: bytes,
                    },
                );
            },
        };
        let (signature, bytes) = match get_vector_as(bytes, from_slice) {
            Ok(x) => x,
            Err(e) => {
                return Err(e);
            },
        };
        Ok(
            (
                DeviceCapability {
                    mls_version,
                    classical_ciphersuites,
                    pq_ciphersuites,
                    apq_supported,
                    pq_auth_supported,
                    provider_id,
                    capability_signature: VLBytes::new(signature),
                },
                bytes,
            ),
        )
    }
}

impl Wire for DeviceCapability {
    open spec fn wire_bytes(v: DeviceCapabilityView) -> Seq<u8> {
        capability_bytes(v)
    }

    open spec fn wire_ok(v: DeviceCapabilityView) -> bool {
        capability_encodable(v)
    }

    open spec fn wire_begun(v: DeviceCapabilityView) -> Seq<u8> {
        capability_begun(v)
    }

    open spec fn wire_read(s: Seq<u8>) -> Decoded<DeviceCapabilityView> {
        read_capability_spec(s, false)
    }

    proof fn wire_round_trip(v: DeviceCapabilityView, rest: Seq<u8>) {
        capability_round_trip(v, rest, false);
    }

    fn put(&self, out: &mut Vec<u8>) -> (r: Result<(), TlsError>) {
        match self.tls_serialize(out) {
            Ok(_) => Ok(()),
            Err(e) => Err(e),
        }
    }

    fn get(bytes: &[u8]) -> (r: Result<(Self, &[u8]), ReadError<'_>>) {
        Self::read(bytes, false)
    }
}

impl DeviceCapability {
    /// How many bytes the capability takes on the wire, however many that are.
    pub(crate) fn wire_size(&self) -> (r: u128)
        ensures
            r == capability_bytes(self@).len(),
            r < 0x7_0000_0000_0000_0000,
    {
        proof {
            lemma_payload_len(self@);
            lemma_vector_len(self@.capability_signature);
        }
        let classical: u128 = 2 * (self.classical_ciphersuites.len() as u128);
        let pq: u128 = 2 * (self.pq_ciphersuites.len() as u128);
        let provider: usize = self.provider_id.as_str().as_bytes().len();
        let signature: usize = self.capability_signature.as_slice().len();
        2 + (wide_prefix_len(classical) + classical) + (wide_prefix_len(pq) + pq) + 1 + 1 + (
        wide_prefix_len(provider as u128) + provider as u128) + (wide_prefix_len(signature as u128)
            + signature as u128)
    }
}

/// How many bytes the length prefix of a vector of `n` bytes has.
pub(crate) fn wide_prefix_len(n: u128) -> (r: u128)
    ensures
        r == length_prefix_len(n as nat),
        r <= 4,
{
    if n <= 0x3f {
        1
    } else if n <= 0x3fff {
        2
    } else {
        4
    }
}

impl Clone for DeviceCapability {
    fn clone(&self) -> (r: Self)
        ensures
            r@ == self@,
    {
        DeviceCapability {
            mls_version: self.mls_version,
            classical_ciphersuites: copy_suites(self.classical_ciphersuites.as_slice()),
            pq_ciphersuites: copy_suites(self.pq_ciphersuites.as_slice()),
            apq_supported: self.apq_supported,
            pq_auth_supported: self.pq_auth_supported,
            provider_id: self.provider_id.clone(),
            capability_signature: self.capability_signature.clone(),
        }
    }
}

/// An owned copy of `list`.
pub fn copy_suites(list: &[Ciphersuite]) -> (r: Vec<Ciphersuite>)
    ensures
        r@ == list@,
{
    let mut copy: Vec<Ciphersuite> = Vec::new();
    copy.extend_from_slice(list);
    assert(copy@ =~= list@);
    copy
}

/// How many bytes the length prefix of a vector of `n` bytes has.
pub fn prefix_len(n: usize) -> (r: usize)
    ensures
        r == length_prefix_len(n as nat),
{
    if n <= 0x3f {
        1
    } else if n <= 0x3fff {
        2
    } else {
        4
    }
}

/// The byte of a boolean.
fn encode_bool(b: bool) -> (r: u8)
    ensures
        r == bool_byte(b),
{
    if b {
        1
    } else {
        0
    }
}

/// The boolean of a byte.
fn decode_bool(b: u8) -> (r: Result<bool, TlsError>)
    ensures
        match r {
            Ok(v) => b == bool_byte(v),
            Err(e) => b > 1 && e@ == TlsErrorView::DecodingError(
                "invalid bool byte 0x"@ + hex_byte(b),
            ),
        },
{
    match b {
        0 => Ok(false),
        1 => Ok(true),
        other => {
            let mut text: String = "invalid bool byte 0x".to_owned();
            push_hex_byte(&mut text, other);
            Err(TlsError::DecodingError(text))
        },
    }
}

/// Reads a boolean.
fn get_bool(bytes: &[u8]) -> (r: Result<(bool, &[u8]), ReadError<'_>>)
    ensures
        match (r, read_bool_spec(bytes@)) {
            (Ok((v, rest)), Ok((w, s))) => v == w && rest@ == s,
            (Err(e), Err(f)) => e@ == f,
            _ => false,
        },
{
    match get_u8(bytes) {
        Ok((b, rest)) => match decode_bool(b) {
            Ok(v) => Ok((v, rest)),
            Err(error) => Err(ReadError { error, unread: rest }),
        },
        Err(e) => Err(e),
    }
}

/// Reads a list of suites, from a stream or as a slice decoder reads it.
fn get_suites_as(bytes: &[u8], from_slice: bool) -> (r: Result<
    (Vec<Ciphersuite>, &[u8]),
    ReadError<'_>,
>)
    ensures
        match (r, read_suites_as(bytes@, from_slice)) {
            (Ok((v, rest)), Ok((n, s))) => v@ == n && rest@ == s,
            (Err(e), Err(f)) => e@ == f,
            _ => false,
        },
{
    if from_slice {
        get_suite_list_from_slice(bytes)
    } else {
        get_suite_list(bytes)
    }
}

/// Reads a byte string, from a stream or as a slice decoder reads it.
fn get_vector_as(bytes: &[u8], from_slice: bool) -> (r: Result<(Vec<u8>, &[u8]), ReadError<'_>>)
    ensures
        match (r, read_vector_as(bytes@, from_slice)) {
            (Ok((v, rest)), Ok((n, s))) => v@ == n && rest@ == s,
            (Err(e), Err(f)) => e@ == f,
            _ => false,
        },
{
    if from_slice {
        get_vector_from_slice(bytes)
    } else {
        get_vector(bytes)
    }
}

/// Whatever goes wrong with a signature, the credential says the same.
fn map_crypto_error(err: CryptoError) -> (r: CredentialError)
    ensures
        r == CredentialError::InvalidSignature,
{
    match err {
        CryptoError::InvalidSignature => CredentialError::InvalidSignature,
        _ => CredentialError::InvalidSignature,
    }
}

/// One of the two lists of a capability.
pub open spec fn suites_listed(c: DeviceCapabilityView, pq: bool) -> Seq<Ciphersuite> {
    if pq {
        c.pq_ciphersuites
    } else {
        c.classical_ciphersuites
    }
}

/// A suite that is found to be common stands in the list of every peer, and where none
/// is found none stands in all of them.
pub proof fn common_suite_is_listed_by_all(
    peers: Seq<&DeviceCapability>,
    pq: bool,
    cs: Ciphersuite,
)
    requires
        peers.len() > 0,
    ensures
        match common_suite(peers, pq) {
            Some(found) => forall|i: int|
                0 <= i < peers.len() ==> suites_listed((#[trigger] peers[i])@, pq).contains(found),
            None => !(forall|i: int|
                0 <= i < peers.len() ==> suites_listed((#[trigger] peers[i])@, pq).contains(cs)),
        },
{
    let others = other_lists(peers, pq);
    let list = suites_listed(peers[0]@, pq);
    let p = |c: Ciphersuite| every_list_contains(others, c);
    lemma_first_suite(list, p);
    match common_suite(peers, pq) {
        Some(found) => {
            assert(p(found));
            assert forall|i: int| 0 <= i < peers.len() implies suites_listed(
                (#[trigger] peers[i])@,
                pq,
            ).contains(found) by {
                if i > 0 {
                    assert(others[i - 1].contains(found));
                }
            }
        },
        None => {
            if forall|i: int|
                0 <= i < peers.len() ==> suites_listed((#[trigger] peers[i])@, pq).contains(cs) {
                assert(list.contains(cs));
                assert forall|i: int| 0 <= i < others.len() implies (#[trigger] others[i]).contains(
                    cs,
                ) by {
                    assert(suites_listed(peers[i + 1]@, pq).contains(cs));
                }
                assert(p(cs));
            }
        },
    }
}

/// The first peer's order decides: a suite that the first peer lists at place `j` and
/// that every other peer lists too is the common one, or one that the first peer lists
/// before it is.
pub proof fn first_peer_decides_the_common_suite(peers: Seq<&DeviceCapability>, pq: bool, j: int)
    requires
        peers.len() > 0,
        0 <= j < suites_listed(peers[0]@, pq).len(),
        forall|i: int|
            0 <= i < peers.len() ==> suites_listed((#[trigger] peers[i])@, pq).contains(
                suites_listed(peers[0]@, pq)[j],
            ),
    ensures
        exists|k: int|
            0 <= k <= j && common_suite(peers, pq) == Some(
                #[trigger] suites_listed(peers[0]@, pq)[k],
            ),
{
    let others = other_lists(peers, pq);
    let first = suites_listed(peers[0]@, pq);
    let p = |c: Ciphersuite| every_list_contains(others, c);
    assert forall|i: int| 0 <= i < others.len() implies (#[trigger] others[i]).contains(
        first[j],
    ) by {
        assert(suites_listed(peers[i + 1]@, pq).contains(first[j]));
    }
    assert(p(first[j]));
    let k = lemma_first_suite_is_first(first, p, j);
    assert(common_suite(peers, pq) == Some(suites_listed(peers[0]@, pq)[k]));
}

/// A capability without a signature never verifies, and one that verifies has a
/// signature that the provider accepts for the bytes of all its other fields.
pub proof fn verified_capabilities_are_signed<C: SignatureProvider>(
    crypto: &C,
    c: DeviceCapabilityView,
    scheme: SignatureScheme,
    public: Seq<u8>,
)
    ensures
        c.capability_signature.len() == 0 ==> !capability_verifies(crypto, c, scheme, public),
        capability_verifies(crypto, c, scheme, public) ==> crypto.verification(
            scheme,
            capability_payload(c),
            public,
            c.capability_signature,
        ) is Ok,
        c.capability_signature.len() > 0 && crypto.verification(
            scheme,
            capability_payload(c),
            public,
            c.capability_signature,
        ) is Ok ==> capability_verifies(crypto, c, scheme, public),
{
}

/// Signing touches the signature alone: it is set where signing succeeded, nothing
/// changes where it failed, and a later signature replaces an earlier one.
pub proof fn signing_touches_the_signature_alone(
    c: DeviceCapabilityView,
    first: Seq<u8>,
    second: Seq<u8>,
    e: CryptoError,
)
    ensures
        ({
            let (after, r) = signed_outcome(c, Ok(first));
            &&& r is Ok
            &&& after.capability_signature == first
            &&& after.mls_version == c.mls_version
            &&& after.classical_ciphersuites == c.classical_ciphersuites
            &&& after.pq_ciphersuites == c.pq_ciphersuites
            &&& after.apq_supported == c.apq_supported
            &&& after.pq_auth_supported == c.pq_auth_supported
            &&& after.provider_id == c.provider_id
            &&& signed_outcome(after, Ok(second)) == signed_outcome(c, Ok(second))
            &&& signed_outcome(after, Err(e)).0 == after
        }),
        signed_outcome(c, Err(e)) == (
            c,
            Err::<(), CredentialError>(CredentialError::InvalidSignature),
        ),
{
}

/// Where the fields of a capability stand on the wire: the version, the classical suites,
/// the post-quantum suites, one byte each for dual sessions and for ML-DSA, the name of
/// the provider, and last the signature, which is not among the signed bytes.
pub proof fn capability_fields_stand_in_order(c: DeviceCapabilityView)
    ensures
        ({
            let all = capability_payload(c);
            let classical = suite_list_bytes(c.classical_ciphersuites);
            let pq = suite_list_bytes(c.pq_ciphersuites);
            let k = 2 + classical.len() as int;
            let m = k + pq.len() as int;
            &&& all.take(2) == be_bytes(c.mls_version as nat, 2)
            &&& all.subrange(2, k) == classical
            &&& all.subrange(k, m) == pq
            &&& all[m] == 1 <==> c.apq_supported
            &&& all[m] == 0 <==> !c.apq_supported
            &&& all[m + 1] == 1 <==> c.pq_auth_supported
            &&& all[m + 1] == 0 <==> !c.pq_auth_supported
            &&& all.skip(m + 2) == vector_bytes(encode_utf8(c.provider_id))
            &&& capability_bytes(c) == all + vector_bytes(c.capability_signature)
        }),
{
    let all = capability_payload(c);
    let classical = suite_list_bytes(c.classical_ciphersuites);
    let pq = suite_list_bytes(c.pq_ciphersuites);
    let k = 2 + classical.len() as int;
    let m = k + pq.len() as int;
    lemma_be_bytes_len(c.mls_version as nat, 2);
    lemma_one_byte(bool_byte(c.apq_supported));
    lemma_one_byte(bool_byte(c.pq_auth_supported));
    assert(all.take(2) =~= be_bytes(c.mls_version as nat, 2));
    assert(all.subrange(2, k) =~= classical);
    assert(all.subrange(k, m) =~= pq);
    assert(all.skip(m + 2) =~= vector_bytes(encode_utf8(c.provider_id)));
}

/// What reads as a boolean is the byte 0 for `false` or 1 for `true`, and every other byte
/// is refused.
pub proof fn booleans_have_one_byte(s: Seq<u8>)
    ensures
        s.len() > 0 ==> match s[0] {
            0 => read_bool_spec(s) == Ok::<(bool, Seq<u8>), ReadErrorView>((false, s.skip(1))),
            1 => read_bool_spec(s) == Ok::<(bool, Seq<u8>), ReadErrorView>((true, s.skip(1))),
            _ => read_bool_spec(s) is Err,
        },
        s.len() == 0 ==> read_bool_spec(s) is Err,
{
    if s.len() > 0 {
        lemma_pow256();
        lemma_one_byte(s[0]);
        integer_round_trip(s[0] as nat, 1, s.skip(1));
        assert(seq![s[0]] + s.skip(1) =~= s);
    } else {
        lemma_int_consumes(s, 1);
    }
}

/// A capability fits the wire exactly if each field does: a list of suites takes two
/// bytes for each of them, and no field may take more than 0x3fff_ffff bytes.
pub proof fn capability_fits_the_wire_iff(c: DeviceCapabilityView)
    ensures
        payload_encodable(c) <==> c.classical_ciphersuites.len() <= 0x1fff_ffff
            && c.pq_ciphersuites.len() <= 0x1fff_ffff && encode_utf8(c.provider_id).len()
            <= 0x3fff_ffff,
        capability_encodable(c) <==> payload_encodable(c) && c.capability_signature.len()
            <= 0x3fff_ffff,
{
}

} // verus!
