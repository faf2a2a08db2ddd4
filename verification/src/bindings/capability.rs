//! Modes, phases and capabilities for callers outside of Rust.
use crate::ciphersuite::security_mode::{mode_name, mode_rank, SecurityMode as InnerSecurityMode};
use crate::credentials::device_capability::{
    capability_bytes, capability_encodable, capability_round_trip, capability_verifies,
    capability_payload, payload_encodable, read_capability_spec, signed_outcome,
    CredentialError, DeviceCapability as InnerDeviceCapability, DeviceCapabilityView,
};
use crate::crypto::SignatureProvider;
use crate::group::conversation_upgrade::{
    conversation_choice, select_conversation_mode as inner_select_conversation_mode,
    ConversationUpgradeError,
};
use crate::group::migration_state::ConversationLifecycle;
use crate::tls::{ReadErrorView, TlsError, TlsErrorView};
use crate::types::{
    ciphersuite_codepoint, ciphersuite_codepoints_are_distinct, signature_codepoint, Ciphersuite,
    CryptoError, SignatureScheme,
};
use vstd::prelude::*;
use vstd::std_specs::convert::FromSpecImpl;
use vstd::string::*;

verus! {

/// A security mode. The numbers of the modes, from `0`, grow with their strength.
#[derive(Debug, Clone, Copy, PartialEq, Eq, Structural)]
pub enum SecurityMode {
    /// Classical cryptography only.
    Classical,
    /// Messages stay secret from a quantum computer.
    PqConfidentiality,
    /// Messages stay secret and authentic in face of a quantum computer.
    PqAuthenticity,
}

/// The mode that stands for an inner one.
pub open spec fn mode_mirror(mode: InnerSecurityMode) -> SecurityMode {
    match mode {
        InnerSecurityMode::Classical => SecurityMode::Classical,
        InnerSecurityMode::PqConfidentiality => SecurityMode::PqConfidentiality,
        InnerSecurityMode::PqAuthenticity => SecurityMode::PqAuthenticity,
    }
}

/// The number of a mode.
pub open spec fn mode_number(mode: SecurityMode) -> u8 {
    match mode {
        SecurityMode::Classical => 0,
        SecurityMode::PqConfidentiality => 1,
        SecurityMode::PqAuthenticity => 2,
    }
}

impl From<InnerSecurityMode> for SecurityMode {
    fn from(m: InnerSecurityMode) -> (r: Self) {
        match m {
            InnerSecurityMode::Classical => SecurityMode::Classical,
            InnerSecurityMode::PqConfidentiality => SecurityMode::PqConfidentiality,
            InnerSecurityMode::PqAuthenticity => SecurityMode::PqAuthenticity,
        }
    }
}

impl FromSpecImpl<InnerSecurityMode> for SecurityMode {
    open spec fn obeys_from_spec() -> bool {
        true
    }

    open spec fn from_spec(m: InnerSecurityMode) -> SecurityMode {
        mode_mirror(m)
    }
}

impl SecurityMode {
    /// The number of the mode.
    pub fn number(self) -> (r: u8)
        ensures
            r == mode_number(self),
    {
        match self {
            SecurityMode::Classical => 0,
            SecurityMode::PqConfidentiality => 1,
            SecurityMode::PqAuthenticity => 2,
        }
    }
}

/// The numbers of two modes compare as the modes do.
pub proof fn numbers_follow_strength(a: InnerSecurityMode, b: InnerSecurityMode)
    ensures
        mode_number(mode_mirror(a)) < mode_number(mode_mirror(b)) <==> mode_rank(a) < mode_rank(b),
        mode_number(mode_mirror(a)) == mode_number(mode_mirror(b)) <==> a == b,
{
}

/// Where a conversation stands, without the reason of a failure.
#[derive(Debug, Clone, Copy, PartialEq, Eq, Structural)]
pub enum LifecyclePhase {
    /// Classical, and no migration under way.
    Classical,
    /// Every member can do post-quantum.
    UpgradeEligible,
    /// An upgrade has been proposed.
    UpgradeProposed,
    /// The upgrade is under way.
    UpgradeInProgress,
    /// The conversation runs under a post-quantum suite.
    PqActive,
    /// The paired sessions are being set up.
    ApqBootstrapping,
    /// The paired sessions are in use.
    ApqActive,
    /// The migration failed.
    Failed,
}

/// The phase of a conversation.
pub open spec fn phase_of(lifecycle: ConversationLifecycle) -> LifecyclePhase {
    match lifecycle {
        ConversationLifecycle::Classical => LifecyclePhase::Classical,
        ConversationLifecycle::UpgradeEligible => LifecyclePhase::UpgradeEligible,
        ConversationLifecycle::UpgradeProposed => LifecyclePhase::UpgradeProposed,
        ConversationLifecycle::UpgradeInProgress => LifecyclePhase::UpgradeInProgress,
        ConversationLifecycle::PqActive => LifecyclePhase::PqActive,
        ConversationLifecycle::ApqBootstrapping => LifecyclePhase::ApqBootstrapping,
        ConversationLifecycle::ApqActive => LifecyclePhase::ApqActive,
        ConversationLifecycle::Failed(_) => LifecyclePhase::Failed,
    }
}

impl<'a> From<&'a ConversationLifecycle> for LifecyclePhase {
    fn from(l: &'a ConversationLifecycle) -> (r: Self) {
        match l {
            ConversationLifecycle::Classical => LifecyclePhase::Classical,
            ConversationLifecycle::UpgradeEligible => LifecyclePhase::UpgradeEligible,
            ConversationLifecycle::UpgradeProposed => LifecyclePhase::UpgradeProposed,
            ConversationLifecycle::UpgradeInProgress => LifecyclePhase::UpgradeInProgress,
            ConversationLifecycle::PqActive => LifecyclePhase::PqActive,
            ConversationLifecycle::ApqBootstrapping => LifecyclePhase::ApqBootstrapping,
            ConversationLifecycle::ApqActive => LifecyclePhase::ApqActive,
            ConversationLifecycle::Failed(_) => LifecyclePhase::Failed,
        }
    }
}

impl<'a> FromSpecImpl<&'a ConversationLifecycle> for LifecyclePhase {
    open spec fn obeys_from_spec() -> bool {
        true
    }

    open spec fn from_spec(l: &'a ConversationLifecycle) -> LifecyclePhase {
        phase_of(*l)
    }
}

/// What can be wrong with a call.
#[derive(Debug, PartialEq, Eq)]
pub enum BindingError {
    /// A number among the classical suites stands for no suite.
    InvalidClassicalCiphersuite {
        /// The number.
        codepoint: u16,
    },
    /// A number among the post-quantum suites stands for no suite.
    InvalidPqCiphersuite {
        /// The number.
        codepoint: u16,
    },
    /// A number stands for no signature scheme.
    InvalidSignatureScheme {
        /// The number.
        codepoint: u16,
    },
    /// The capability could not be signed.
    SignFailed(CredentialError),
    /// The capability does not verify.
    VerifyFailed(CredentialError),
}

/// The codepoints of suites.
pub open spec fn codepoints(suites: Seq<Ciphersuite>) -> Seq<u16> {
    suites.map_values(|cs: Ciphersuite| ciphersuite_codepoint(cs))
}

/// Whether a number is the codepoint of a suite.
pub open spec fn is_codepoint(value: u16) -> bool {
    exists|cs: Ciphersuite| #[trigger] ciphersuite_codepoint(cs) == value
}

/// The first number that is the codepoint of no suite.
pub open spec fn first_unknown(values: Seq<u16>) -> Option<u16>
    decreases values.len(),
{
    if values.len() == 0 {
        None
    } else if !is_codepoint(values[0]) {
        Some(values[0])
    } else {
        first_unknown(values.skip(1))
    }
}

/// The suites that have the codepoints `values`, or the first number that is the
/// codepoint of no suite.
fn suites_of(values: &[u16]) -> (r: Result<Vec<Ciphersuite>, u16>)
    ensures
        match r {
            Ok(suites) => first_unknown(values@) is None && codepoints(suites@) == values@,
            Err(value) => first_unknown(values@) == Some(value),
        },
{
    let mut suites: Vec<Ciphersuite> = Vec::new();
    let mut i: usize = 0;
    assert(values@.skip(0) =~= values@);
    while i < values.len()
        invariant
            i <= values@.len(),
            codepoints(suites@) == values@.take(i as int),
            first_unknown(values@) == first_unknown(values@.skip(i as int)),
        decreases values@.len() - i,
    {
        assert(values@.skip(i as int)[0] == values@[i as int]);
        match Ciphersuite::from_codepoint(values[i]) {
            Some(cs) => {
                let ghost before = suites@;
                suites.push(cs);
                proof {
                    assert(is_codepoint(values@[i as int]));
                    assert(values@.skip(i as int).skip(1) =~= values@.skip(i + 1));
                    assert(codepoints(suites@) =~= codepoints(before).push(values@[i as int]));
                    assert(values@.take(i + 1) =~= values@.take(i as int).push(
                        values@[i as int],
                    ));
                }
            },
            None => {
                return Err(values[i]);
            },
        }
        i += 1;
    }
    assert(values@.skip(i as int) =~= Seq::<u16>::empty());
    assert(values@.take(i as int) =~= values@);
    Ok(suites)
}

/// The codepoints of suites.
fn codepoints_of(suites: &[Ciphersuite]) -> (r: Vec<u16>)
    ensures
        r@ == codepoints(suites@),
{
    let mut values: Vec<u16> = Vec::new();
    let mut i: usize = 0;
    while i < suites.len()
        invariant
            i <= suites@.len(),
            values@ =~= codepoints(suites@.take(i as int)),
        decreases suites@.len() - i,
    {
        values.push(suites[i].codepoint());
        assert(suites@.take(i + 1) =~= suites@.take(i as int).push(suites@[i as int]));
        i += 1;
    }
    assert(suites@.take(i as int) =~= suites@);
    values
}

/// A capability, with suites and schemes given by their codepoints.
#[derive(Debug, PartialEq, Eq)]
pub struct DeviceCapability {
    inner: InnerDeviceCapability,
}

impl View for DeviceCapability {
    type V = DeviceCapabilityView;

    closed spec fn view(&self) -> DeviceCapabilityView {
        self.inner@
    }
}

impl Clone for DeviceCapability {
    fn clone(&self) -> (r: Self)
        ensures
            r@ == self@,
    {
        DeviceCapability { inner: self.inner.clone() }
    }
}

impl DeviceCapability {
    /// The capability inside.
    pub closed spec fn inner_capability(&self) -> InnerDeviceCapability {
        self.inner
    }

    /// A new capability, not signed yet. The classical suites are looked at first.
    pub fn new(
        mls_version: u16,
        classical_ciphersuites: Vec<u16>,
        pq_ciphersuites: Vec<u16>,
        apq_supported: bool,
        pq_auth_supported: bool,
        provider_id: String,
    ) -> (r: Result<DeviceCapability, BindingError>)
        ensures
            match r {
                Ok(c) => first_unknown(classical_ciphersuites@) is None && first_unknown(
                    pq_ciphersuites@,
                ) is None && codepoints(c@.classical_ciphersuites) == classical_ciphersuites@
                    && codepoints(c@.pq_ciphersuites) == pq_ciphersuites@ && c@.mls_version
                    == mls_version && c@.apq_supported == apq_supported && c@.pq_auth_supported
                    == pq_auth_supported && c@.provider_id == provider_id@
                    && c@.capability_signature == Seq::<u8>::empty(),
                Err(e) => match first_unknown(classical_ciphersuites@) {
                    Some(codepoint) => e == (BindingError::InvalidClassicalCiphersuite {
                        codepoint,
                    }),
                    None => first_unknown(pq_ciphersuites@) matches Some(codepoint) && e == (
                    BindingError::InvalidPqCiphersuite { codepoint }),
                },
            },
    {
        let classical = match suites_of(classical_ciphersuites.as_slice()) {
            Ok(suites) => suites,
            Err(codepoint) => {
                return Err(BindingError::InvalidClassicalCiphersuite { codepoint });
            },
        };
        let pq = match suites_of(pq_ciphersuites.as_slice()) {
            Ok(suites) => suites,
            Err(codepoint) => {
                return Err(BindingError::InvalidPqCiphersuite { codepoint });
            },
        };
        Ok(
            DeviceCapability {
                inner: InnerDeviceCapability::new(
                    mls_version,
                    classical,
                    pq,
                    apq_supported,
                    pq_auth_supported,
                    provider_id,
                ),
            },
        )
    }

    /// Whether there is a signature at all.
    pub fn is_signed(&self) -> (r: bool)
        ensures
            r == (self@.capability_signature.len() > 0),
    {
        self.inner.is_signed()
    }

    /// The MLS version.
    pub fn mls_version(&self) -> (r: u16)
        ensures
            r == self@.mls_version,
    {
        self.inner.mls_version
    }

    /// The crypto provider.
    pub fn provider_id(&self) -> (r: String)
        ensures
            r@ == self@.provider_id,
    {
        self.inner.provider_id.clone()
    }

    /// Whether the device takes part in dual sessions.
    pub fn apq_supported(&self) -> (r: bool)
        ensures
            r == self@.apq_supported,
    {
        self.inner.apq_supported
    }

    /// Whether the device can sign with ML-DSA.
    pub fn pq_auth_supported(&self) -> (r: bool)
        ensures
            r == self@.pq_auth_supported,
    {
        self.inner.pq_auth_supported
    }

    /// The codepoints of the classical suites.
    pub fn classical_ciphersuites(&self) -> (r: Vec<u16>)
        ensures
            r@ == codepoints(self@.classical_ciphersuites),
    {
        codepoints_of(self.inner.classical_ciphersuites.as_slice())
    }

    /// The codepoints of the post-quantum suites.
    pub fn pq_ciphersuites(&self) -> (r: Vec<u16>)
        ensures
            r@ == codepoints(self@.pq_ciphersuites),
    {
        codepoints_of(self.inner.pq_ciphersuites.as_slice())
    }

    /// Signs the capability under the scheme with the codepoint `signature_scheme`.
    pub fn sign<P: SignatureProvider>(
        &mut self,
        signature_scheme: u16,
        signing_key: &[u8],
        provider: &P,
    ) -> (r: Result<(), BindingError>)
        requires
            is_scheme(signature_scheme) ==> payload_encodable(old(self)@),
        ensures
            if is_scheme(signature_scheme) {
                exists|scheme: SignatureScheme, outcome: Result<Seq<u8>, CryptoError>|
                    #[trigger] provider.may_sign(
                        scheme,
                        capability_payload(old(self)@),
                        signing_key@,
                        outcome,
                    ) && signature_codepoint(scheme) == signature_scheme && final(self)@
                        == signed_outcome(old(self)@, outcome).0 && r == sign_answer(
                        signed_outcome(old(self)@, outcome).1,
                    )
            } else {
                final(self)@ == old(self)@ && r == Err::<(), BindingError>(
                    BindingError::InvalidSignatureScheme { codepoint: signature_scheme },
                )
            },
    {
        match SignatureScheme::from_codepoint(signature_scheme) {
            Some(scheme) => {
                assert(signature_codepoint(scheme) == signature_scheme);
                match self.inner.sign(scheme, signing_key, provider) {
                    Ok(()) => Ok(()),
                    Err(e) => Err(BindingError::SignFailed(e)),
                }
            },
            None => Err(
                BindingError::InvalidSignatureScheme { codepoint: signature_scheme },
            ),
        }
    }

    /// Verifies the signature under the scheme with the codepoint `signature_scheme`.
    pub fn verify<P: SignatureProvider>(
        &self,
        signature_scheme: u16,
        public_key: &[u8],
        provider: &P,
    ) -> (r: Result<(), BindingError>)
        requires
            is_scheme(signature_scheme) && self@.capability_signature.len() > 0
                ==> payload_encodable(self@),
        ensures
            match r {
                Ok(_) => exists|scheme: SignatureScheme| #[trigger]
                    signature_codepoint(scheme) == signature_scheme && capability_verifies(
                        provider,
                        self@,
                        scheme,
                        public_key@,
                    ),
                Err(BindingError::VerifyFailed(e)) => e == CredentialError::InvalidSignature
                    && exists|scheme: SignatureScheme| #[trigger]
                    signature_codepoint(scheme) == signature_scheme && !capability_verifies(
                        provider,
                        self@,
                        scheme,
                        public_key@,
                    ),
                Err(e) => e == (BindingError::InvalidSignatureScheme {
                    codepoint: signature_scheme,
                }) && !is_scheme(signature_scheme),
            },
    {
        match SignatureScheme::from_codepoint(signature_scheme) {
            Some(scheme) => {
                assert(signature_codepoint(scheme) == signature_scheme);
                match self.inner.verify(scheme, public_key, provider) {
                    Ok(()) => Ok(()),
                    Err(e) => Err(BindingError::VerifyFailed(e)),
                }
            },
            None => Err(
                BindingError::InvalidSignatureScheme { codepoint: signature_scheme },
            ),
        }
    }

    /// The capability in its form on the wire.
    pub fn tls_encode(&self) -> (r: Result<Vec<u8>, TlsError>)
        ensures
            match r {
                Ok(bytes) => capability_encodable(self@) && bytes@ == capability_bytes(self@),
                Err(e) => !capability_encodable(self@) && e@ == TlsErrorView::InvalidVectorLength,
            },
    {
        self.inner.tls_serialize_detached()
    }

    /// The capability at the front of `bytes`. What is behind it is not looked at.
    pub fn tls_decode(bytes: &[u8]) -> (r: Result<DeviceCapability, TlsError>)
        ensures
            match (r, read_capability_spec(bytes@, false)) {
                (Ok(c), Ok((v, _))) => c@ == v,
                (Err(e), Err(f)) => e@ == f.error,
                _ => false,
            },
    {
        let mut reader: &[u8] = bytes;
        match InnerDeviceCapability::tls_deserialize(&mut reader) {
            Ok(inner) => Ok(DeviceCapability { inner }),
            Err(e) => Err(e),
        }
    }
}

/// Whether a number is the codepoint of a signature scheme.
pub open spec fn is_scheme(value: u16) -> bool {
    exists|scheme: SignatureScheme| #[trigger] signature_codepoint(scheme) == value
}

/// What a caller is told of a signing.
pub open spec fn sign_answer(r: Result<(), CredentialError>) -> Result<(), BindingError> {
    match r {
        Ok(_) => Ok(()),
        Err(e) => Err(BindingError::SignFailed(e)),
    }
}

/// What is decoded from an encoded capability is the capability.
pub proof fn encoded_capabilities_decode(c: DeviceCapabilityView)
    requires
        capability_encodable(c),
    ensures
        read_capability_spec(capability_bytes(c), false) == Ok::<
            (DeviceCapabilityView, Seq<u8>),
            ReadErrorView,
        >((c, Seq::empty())),
{
    capability_round_trip(c, Seq::empty(), false);
    assert(capability_bytes(c) + Seq::<u8>::empty() =~= capability_bytes(c));
}

/// Suites with the same codepoints are the same.
pub proof fn codepoints_tell_suites_apart(a: Seq<Ciphersuite>, b: Seq<Ciphersuite>)
    requires
        codepoints(a) == codepoints(b),
    ensures
        a == b,
{
    assert(a.len() == codepoints(a).len());
    assert(b.len() == codepoints(b).len());
    assert forall|i: int| 0 <= i < a.len() implies a[i] == b[i] by {
        assert(codepoints(a)[i] == ciphersuite_codepoint(a[i]));
        assert(codepoints(b)[i] == ciphersuite_codepoint(b[i]));
        ciphersuite_codepoints_are_distinct(a[i], b[i]);
    }
    assert(a =~= b);
}

/// A mode and the codepoint of a suite for it.
#[derive(Debug, Clone, Copy, PartialEq, Eq, Structural)]
pub struct SelectModeResult {
    mode: SecurityMode,
    ciphersuite: u16,
}

impl SelectModeResult {
    /// The mode.
    pub closed spec fn spec_mode(&self) -> SecurityMode {
        self.mode
    }

    /// The codepoint of the suite.
    pub closed spec fn spec_ciphersuite(&self) -> u16 {
        self.ciphersuite
    }

    /// The mode.
    pub fn mode(&self) -> (r: SecurityMode)
        ensures
            r == self.spec_mode(),
    {
        self.mode
    }

    /// The codepoint of the suite.
    pub fn ciphersuite(&self) -> (r: u16)
        ensures
            r == self.spec_ciphersuite(),
    {
        self.ciphersuite
    }
}

/// Why there is no mode for a list of peers.
#[derive(Debug, Clone, Copy, PartialEq, Eq, Structural)]
pub enum SelectModeError {
    /// There are no peers.
    NoPeers,
    /// The peers cannot have a conversation.
    Refused(ConversationUpgradeError),
}

impl SelectModeError {
    /// What `Debug` writes for the error inside, and what there is to say about no
    /// peers.
    pub fn message(&self) -> (r: String)
        ensures
            r@ == select_mode_error_text(*self),
    {
        match self {
            SelectModeError::NoPeers =>
                "selectConversationMode requires at least one peer capability".to_owned(),
            SelectModeError::Refused(ConversationUpgradeError::NoParticipants) =>
                "select_conversation_mode: NoParticipants".to_owned(),
            SelectModeError::Refused(ConversationUpgradeError::NoCommonCiphersuite { mode }) => {
                let mut text: String =
                    "select_conversation_mode: NoCommonCiphersuite { mode: ".to_owned();
                text.append(mode.name());
                text.append(" }");
                text
            },
        }
    }
}

/// The text of an error.
pub open spec fn select_mode_error_text(e: SelectModeError) -> Seq<char> {
    match e {
        SelectModeError::NoPeers =>
            "selectConversationMode requires at least one peer capability"@,
        SelectModeError::Refused(ConversationUpgradeError::NoParticipants) =>
            "select_conversation_mode: NoParticipants"@,
        SelectModeError::Refused(ConversationUpgradeError::NoCommonCiphersuite { mode }) =>
            "select_conversation_mode: NoCommonCiphersuite { mode: "@ + mode_name(mode) + " }"@,
    }
}

/// The capabilities inside.
pub open spec fn inner_capabilities<'a>(peers: Seq<DeviceCapability>) -> Seq<
    &'a InnerDeviceCapability,
> {
    peers.map_values(|c: DeviceCapability| &c.inner_capability())
}

/// The strongest mode that all peers support, and a suite for it.
pub fn select_conversation_mode_inner(peer_capabilities: &[DeviceCapability]) -> (r: Result<
    SelectModeResult,
    SelectModeError,
>)
    ensures
        match r {
            Ok(selected) => peer_capabilities@.len() > 0 && (conversation_choice(
                inner_capabilities(peer_capabilities@),
            ) matches Ok((mode, cs)) && selected.spec_mode() == mode_mirror(mode)
                && selected.spec_ciphersuite() == ciphersuite_codepoint(cs)),
            Err(SelectModeError::NoPeers) => peer_capabilities@.len() == 0,
            Err(SelectModeError::Refused(e)) => peer_capabilities@.len() > 0
                && conversation_choice(inner_capabilities(peer_capabilities@)) == Err::<
                (InnerSecurityMode, Ciphersuite),
                ConversationUpgradeError,
            >(e),
        },
{
    if peer_capabilities.len() == 0 {
        return Err(SelectModeError::NoPeers);
    }
    let mut inner: Vec<&InnerDeviceCapability> = Vec::new();
    let mut i: usize = 0;
    while i < peer_capabilities.len()
        invariant
            i <= peer_capabilities@.len(),
            inner@ =~= inner_capabilities(peer_capabilities@.take(i as int)),
        decreases peer_capabilities@.len() - i,
    {
        inner.push(&peer_capabilities[i].inner);
        assert(peer_capabilities@.take(i + 1) =~= peer_capabilities@.take(i as int).push(
            peer_capabilities@[i as int],
        ));
        i += 1;
    }
    assert(peer_capabilities@.take(i as int) =~= peer_capabilities@);
    match inner_select_conversation_mode(inner.as_slice()) {
        Ok((mode, cs)) => Ok(
            SelectModeResult { mode: SecurityMode::from(mode), ciphersuite: cs.codepoint() },
        ),
        Err(e) => Err(SelectModeError::Refused(e)),
    }
}

/// The strongest mode that all peers support, and a suite for it.
pub fn select_conversation_mode(peer_capabilities: Vec<DeviceCapability>) -> (r: Result<
    SelectModeResult,
    String,
>)
    ensures
        match r {
            Ok(selected) => conversation_choice(
                inner_capabilities(peer_capabilities@),
            ) matches Ok((mode, cs)) && selected.spec_mode() == mode_mirror(mode)
                && selected.spec_ciphersuite() == ciphersuite_codepoint(cs),
            Err(text) => conversation_choice(
                inner_capabilities(peer_capabilities@),
            ) matches Err(e) && text@ == select_mode_error_text(
                if peer_capabilities@.len() == 0 {
                    SelectModeError::NoPeers
                } else {
                    SelectModeError::Refused(e)
                },
            ),
        },
{
    match select_conversation_mode_inner(peer_capabilities.as_slice()) {
        Ok(selected) => Ok(selected),
        Err(e) => Err(e.message()),
    }
}

/// A mode and its mirror are the same mode, and the number of the mirror is the place of
/// the mode.
pub proof fn mirrors_show_the_mode(mode: InnerSecurityMode)
    ensures
        mode_mirror(mode) == SecurityMode::Classical <==> mode == InnerSecurityMode::Classical,
        mode_mirror(mode) == SecurityMode::PqConfidentiality <==> mode
            == InnerSecurityMode::PqConfidentiality,
        mode_mirror(mode) == SecurityMode::PqAuthenticity <==> mode
            == InnerSecurityMode::PqAuthenticity,
        mode_number(mode_mirror(mode)) == mode_rank(mode),
{
}

/// A phase tells where the conversation stands: each has one kind of lifecycle, and a
/// failure is one whatever its reason.
pub proof fn phases_tell_the_lifecycle(l: ConversationLifecycle)
    ensures
        phase_of(l) == LifecyclePhase::Classical <==> l is Classical,
        phase_of(l) == LifecyclePhase::UpgradeEligible <==> l is UpgradeEligible,
        phase_of(l) == LifecyclePhase::UpgradeProposed <==> l is UpgradeProposed,
        phase_of(l) == LifecyclePhase::UpgradeInProgress <==> l is UpgradeInProgress,
        phase_of(l) == LifecyclePhase::PqActive <==> l is PqActive,
        phase_of(l) == LifecyclePhase::ApqBootstrapping <==> l is ApqBootstrapping,
        phase_of(l) == LifecyclePhase::ApqActive <==> l is ApqActive,
        phase_of(l) == LifecyclePhase::Failed <==> l is Failed,
{
}

/// The codepoints of suites stand in the order of the suites.
pub proof fn codepoints_stand_in_order(suites: Seq<Ciphersuite>, i: int)
    ensures
        codepoints(suites).len() == suites.len(),
        0 <= i < suites.len() ==> codepoints(suites)[i] == ciphersuite_codepoint(suites[i]),
{
}

/// Of some numbers the first one that is no codepoint is found, if there is any: the
/// number at place `i` is it if it is none and all before it are.
pub proof fn first_unknown_number_is_found(values: Seq<u16>, i: int)
    ensures
        0 <= i < values.len() && !is_codepoint(values[i]) && (forall|k: int|
            0 <= k < i ==> is_codepoint(#[trigger] values[k])) ==> first_unknown(values) == Some(
            values[i],
        ),
        first_unknown(values) is None <==> forall|k: int|
            0 <= k < values.len() ==> is_codepoint(#[trigger] values[k]),
    decreases values.len(),
{
    if values.len() > 0 {
        let tail = values.skip(1);
        first_unknown_number_is_found(tail, i - 1);
        if is_codepoint(values[0]) {
            if forall|k: int| 0 <= k < tail.len() ==> is_codepoint(#[trigger] tail[k]) {
                assert forall|k: int| 0 <= k < values.len() implies is_codepoint(
                    #[trigger] values[k],
                ) by {
                    if k > 0 {
                        assert(tail[k - 1] == values[k]);
                    }
                }
            }
            if forall|k: int| 0 <= k < values.len() ==> is_codepoint(#[trigger] values[k]) {
                assert forall|k: int| 0 <= k < tail.len() implies is_codepoint(
                    #[trigger] tail[k],
                ) by {
                    assert(tail[k] == values[k + 1]);
                }
            }
            if 0 < i < values.len() && forall|k: int|
                0 <= k < i ==> is_codepoint(#[trigger] values[k]) {
                assert(tail[i - 1] == values[i]);
                assert forall|k: int| 0 <= k < i - 1 implies is_codepoint(#[trigger] tail[k]) by {
                    assert(tail[k] == values[k + 1]);
                }
            }
        }
    }
}

/// The capabilities that are compared are those of the peers, in the same order.
pub proof fn peers_are_compared_by_their_capabilities(peers: Seq<DeviceCapability>, i: int)
    requires
        0 <= i < peers.len(),
    ensures
        inner_capabilities(peers).len() == peers.len(),
        inner_capabilities(peers)[i]@ == peers[i]@,
{
}

/// A caller is told of a failed signing with its reason, and of nothing else.
pub proof fn failed_signings_are_told(r: Result<(), CredentialError>)
    ensures
        sign_answer(r) is Ok <==> r is Ok,
        r matches Err(e) ==> sign_answer(r) == Err::<(), BindingError>(BindingError::SignFailed(e)),
{
}

/// The numbers that callers may give for a suite, and those for a signature scheme.
pub proof fn known_numbers(value: u16)
    ensures
        is_codepoint(value) <==> 1 <= value <= 7 || value == 0x4D || 0xFE01 <= value <= 0xFE06,
        is_scheme(value) <==> value == 0x0403 || value == 0x0503 || value == 0x0603 || value
            == 0x0807 || value == 0x0808 || 0x0904 <= value <= 0x0906,
{
    assert(ciphersuite_codepoint(Ciphersuite::MLS_128_DHKEMX25519_AES128GCM_SHA256_Ed25519) == 1);
    assert(ciphersuite_codepoint(Ciphersuite::MLS_128_DHKEMP256_AES128GCM_SHA256_P256) == 2);
    assert(ciphersuite_codepoint(
        Ciphersuite::MLS_128_DHKEMX25519_CHACHA20POLY1305_SHA256_Ed25519,
    ) == 3);
    assert(ciphersuite_codepoint(Ciphersuite::MLS_256_DHKEMX448_AES256GCM_SHA512_Ed448) == 4);
    assert(ciphersuite_codepoint(Ciphersuite::MLS_256_DHKEMP521_AES256GCM_SHA512_P521) == 5);
    assert(ciphersuite_codepoint(Ciphersuite::MLS_256_DHKEMX448_CHACHA20POLY1305_SHA512_Ed448)
        == 6);
    assert(ciphersuite_codepoint(Ciphersuite::MLS_256_DHKEMP384_AES256GCM_SHA384_P384) == 7);
    assert(ciphersuite_codepoint(Ciphersuite::MLS_256_XWING_CHACHA20POLY1305_SHA256_Ed25519)
        == 0x4D);
    assert(ciphersuite_codepoint(Ciphersuite::MLS_256_MLKEM768_X25519_AES256GCM_SHA384_Ed25519)
        == 0xFE01);
    assert(ciphersuite_codepoint(
        Ciphersuite::MLS_256_MLKEM768_X25519_CHACHA20POLY1305_SHA256_Ed25519,
    ) == 0xFE02);
    assert(ciphersuite_codepoint(Ciphersuite::MLS_256_MLKEM1024_AES256GCM_SHA512_Ed448) == 0xFE03);
    assert(ciphersuite_codepoint(Ciphersuite::MLS_256_MLKEM768_AES256GCM_SHA384_Ed25519) == 0xFE04);
    assert(ciphersuite_codepoint(Ciphersuite::MLS_256_MLKEM768_X25519_AES256GCM_SHA384_MLDSA65)
        == 0xFE05);
    assert(ciphersuite_codepoint(Ciphersuite::MLS_256_MLKEM768_AES256GCM_SHA384_MLDSA65) == 0xFE06);
    assert(signature_codepoint(SignatureScheme::ECDSA_SECP256R1_SHA256) == 0x0403);
    assert(signature_codepoint(SignatureScheme::ECDSA_SECP384R1_SHA384) == 0x0503);
    assert(signature_codepoint(SignatureScheme::ECDSA_SECP521R1_SHA512) == 0x0603);
    assert(signature_codepoint(SignatureScheme::ED25519) == 0x0807);
    assert(signature_codepoint(SignatureScheme::ED448) == 0x0808);
    assert(signature_codepoint(SignatureScheme::MLDSA44) == 0x0904);
    assert(signature_codepoint(SignatureScheme::MLDSA65) == 0x0905);
    assert(signature_codepoint(SignatureScheme::MLDSA87) == 0x0906);
}

} // verus!
