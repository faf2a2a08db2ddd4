//! Publishing and fetching capabilities.
//!
//! A device sends its signed capability to a server, and asks for those of others.
//! The server passes on what a device has signed, so that whoever receives it can
//! verify it. A notification carries no capability and is no proof of anything: it
//! only says that it is time to fetch again.
use crate::credentials::capability_registry::{
    registry_error_text, store_verdict, CapabilityRegistry, RegistryError,
};
use crate::credentials::device_capability::{
    capability_begun, capability_bytes, capability_encodable, capability_round_trip,
    capability_verifies, lemma_capability_consumes, payload_encodable, read_capability_spec,
    wide_prefix_len,
    DeviceCapability, DeviceCapabilityView,
};
use crate::crypto::SignatureProvider;
use crate::text::{decimal, push_decimal};
use crate::tls::{
    be_bytes, byte_strings_have_one_form, get_u16, get_u64, get_u8, get_vector,
    integer_round_trip, integers_have_one_form, lemma_assoc,
    lemma_be_bytes_len, lemma_int_consumes, lemma_pow256, lemma_vector_consumes, lemma_vector_len,
    put_u16, put_u64, put_u8, read_int_spec, read_vector_spec, try_put_vector, vector_bytes,
    vector_round_trip, Decoded, ReadError, ReadErrorView, TlsError, TlsErrorView, VLBytes,
    MAX_VECTOR_LENGTH,
};
use crate::types::{signature_codepoint, signature_codepoints_are_distinct, SignatureScheme};
use crate::wire::{
    get_list, list_bytes, list_ok, list_round_trip, put_list, read_list_spec, views, Wire,
    WireItem,
};
use vstd::prelude::*;
use vstd::string::*;

verus! {

/// A number that grows with every accepted publication of a device.
pub type CapabilityVersion = u64;

/// A device publishes its capability.
#[derive(Debug, PartialEq, Eq)]
pub struct CapabilityPublishRequest {
    /// The user.
    pub user_id: VLBytes,
    /// The device.
    pub device_id: VLBytes,
    /// The scheme of the device's identity key.
    pub signature_scheme: SignatureScheme,
    /// The device's identity key.
    pub public_key: VLBytes,
    /// The signed capability.
    pub capability: DeviceCapability,
}

/// A `CapabilityPublishRequest` over the views of what it holds.
#[verifier::ext_equal]
pub struct PublishRequestView {
    /// See `CapabilityPublishRequest::user_id`.
    pub user_id: Seq<u8>,
    /// See `CapabilityPublishRequest::device_id`.
    pub device_id: Seq<u8>,
    /// See `CapabilityPublishRequest::signature_scheme`.
    pub signature_scheme: SignatureScheme,
    /// See `CapabilityPublishRequest::public_key`.
    pub public_key: Seq<u8>,
    /// See `CapabilityPublishRequest::capability`.
    pub capability: DeviceCapabilityView,
}

impl View for CapabilityPublishRequest {
    type V = PublishRequestView;

    open spec fn view(&self) -> PublishRequestView {
        PublishRequestView {
            user_id: self.user_id@,
            device_id: self.device_id@,
            signature_scheme: self.signature_scheme,
            public_key: self.public_key@,
            capability: self.capability@,
        }
    }
}

/// A device together with a version.
#[verifier::ext_equal]
pub struct DeviceVersionView {
    /// The user.
    pub user_id: Seq<u8>,
    /// The device.
    pub device_id: Seq<u8>,
    /// The version.
    pub version: u64,
}

/// The server has accepted a publication.
#[derive(Debug, PartialEq, Eq)]
pub struct CapabilityPublishResponse {
    /// The user.
    pub user_id: VLBytes,
    /// The device.
    pub device_id: VLBytes,
    /// The version of the capability.
    pub version: CapabilityVersion,
}

impl View for CapabilityPublishResponse {
    type V = DeviceVersionView;

    open spec fn view(&self) -> DeviceVersionView {
        DeviceVersionView {
            user_id: self.user_id@,
            device_id: self.device_id@,
            version: self.version,
        }
    }
}

/// A device that someone asks for.
#[derive(Debug, PartialEq, Eq, Hash)]
pub struct CapabilityFetchKey {
    /// The user.
    pub user_id: VLBytes,
    /// The device.
    pub device_id: VLBytes,
}

impl View for CapabilityFetchKey {
    type V = (Seq<u8>, Seq<u8>);

    open spec fn view(&self) -> (Seq<u8>, Seq<u8>) {
        (self.user_id@, self.device_id@)
    }
}

/// Someone asks for the capabilities of devices.
#[derive(Debug, PartialEq, Eq)]
pub struct CapabilityFetchRequest {
    /// The devices.
    pub keys: Vec<CapabilityFetchKey>,
}

impl View for CapabilityFetchRequest {
    type V = Seq<(Seq<u8>, Seq<u8>)>;

    open spec fn view(&self) -> Seq<(Seq<u8>, Seq<u8>)> {
        views(self.keys@)
    }
}

/// What the server knows of a device that was asked for.
#[derive(Debug, PartialEq, Eq)]
pub struct FetchedCapability {
    /// The user.
    pub user_id: VLBytes,
    /// The device.
    pub device_id: VLBytes,
    /// The signed capability, if the server has one.
    pub capability: Option<DeviceCapability>,
    /// The version of the capability, or 0.
    pub version: CapabilityVersion,
}

/// A `FetchedCapability` over the views of what it holds.
#[verifier::ext_equal]
pub struct FetchedView {
    /// See `FetchedCapability::user_id`.
    pub user_id: Seq<u8>,
    /// See `FetchedCapability::device_id`.
    pub device_id: Seq<u8>,
    /// See `FetchedCapability::capability`.
    pub capability: Option<DeviceCapabilityView>,
    /// See `FetchedCapability::version`.
    pub version: u64,
}

/// The view of an optional capability.
pub open spec fn opt_capability(c: Option<DeviceCapability>) -> Option<DeviceCapabilityView> {
    match c {
        Some(c) => Some(c@),
        None => None,
    }
}

impl View for FetchedCapability {
    type V = FetchedView;

    open spec fn view(&self) -> FetchedView {
        FetchedView {
            user_id: self.user_id@,
            device_id: self.device_id@,
            capability: opt_capability(self.capability),
            version: self.version,
        }
    }
}

/// The server's answer to a `CapabilityFetchRequest`.
#[derive(Debug, PartialEq, Eq)]
pub struct CapabilityFetchResponse {
    /// One entry for each device that was asked for.
    pub entries: Vec<FetchedCapability>,
}

impl View for CapabilityFetchResponse {
    type V = Seq<FetchedView>;

    open spec fn view(&self) -> Seq<FetchedView> {
        views(self.entries@)
    }
}

/// The server tells that the capability of a device has changed.
#[derive(Debug, PartialEq, Eq)]
pub struct CapabilityUpdateNotification {
    /// The user.
    pub user_id: VLBytes,
    /// The device.
    pub device_id: VLBytes,
    /// The new version.
    pub version: CapabilityVersion,
}

impl View for CapabilityUpdateNotification {
    type V = DeviceVersionView;

    open spec fn view(&self) -> DeviceVersionView {
        DeviceVersionView {
            user_id: self.user_id@,
            device_id: self.device_id@,
            version: self.version,
        }
    }
}

/// Why a publication is refused.
#[derive(Debug, Clone, Copy, PartialEq, Eq, Structural)]
pub enum ProtocolError {
    /// The registry does not keep the capability.
    Registry(RegistryError),
}

/// Takes a publication. An accepted one is answered with the device and the
/// version.
pub fn process_publish<C: SignatureProvider>(
    registry: &mut CapabilityRegistry,
    request: CapabilityPublishRequest,
    next_version: CapabilityVersion,
    crypto: &C,
) -> (r: Result<CapabilityPublishResponse, ProtocolError>)
    requires
        request@.capability.capability_signature.len() > 0 ==> payload_encodable(
            request@.capability,
        ),
    ensures
        match (
            r,
            store_verdict(
                crypto,
                request@.capability,
                request@.signature_scheme,
                request@.public_key,
            ),
        ) {
            (Ok(response), Ok(_)) => response@ == (DeviceVersionView {
                user_id: request@.user_id,
                device_id: request@.device_id,
                version: next_version,
            }) && final(registry)@ == old(registry)@.insert(
                (request@.user_id, request@.device_id),
                request@.capability,
            ),
            (Err(e), Err(f)) => e == ProtocolError::Registry(f) && final(registry)@ == old(registry)@,
            _ => false,
        },
{
    let CapabilityPublishRequest { user_id, device_id, signature_scheme, public_key, capability } =
        request;
    let user_id_bytes = user_id.into_vec();
    let device_id_bytes = device_id.into_vec();
    let response = CapabilityPublishResponse {
        user_id: VLBytes::from_slice(user_id_bytes.as_slice()),
        device_id: VLBytes::from_slice(device_id_bytes.as_slice()),
        version: next_version,
    };
    match registry.store(
        user_id_bytes,
        device_id_bytes,
        capability,
        signature_scheme,
        public_key.as_slice(),
        crypto,
    ) {
        Ok(_) => Ok(response),
        Err(e) => Err(ProtocolError::Registry(e)),
    }
}

/// `true` if `entry` answers `key`: with what the registry has and a version that
/// `version_for` gave for it, or with nothing and version 0.
pub open spec fn answers<F: Fn(&[u8], &[u8]) -> CapabilityVersion>(
    registry: Map<(Seq<u8>, Seq<u8>), DeviceCapabilityView>,
    version_for: F,
    key: (Seq<u8>, Seq<u8>),
    entry: FetchedView,
) -> bool {
    entry.user_id == key.0 && entry.device_id == key.1 && if registry.contains_key(key) {
        entry.capability == Some(registry[key]) && exists|user: &[u8], device: &[u8]|
            user@ == key.0 && device@ == key.1 && #[trigger] call_ensures(
                version_for,
                (user, device),
                entry.version,
            )
    } else {
        entry.capability is None && entry.version == 0
    }
}

/// Answers a request, device by device. `version_for` tells the version of a device
/// that the registry knows, and is asked for no other.
pub fn process_fetch<F: Fn(&[u8], &[u8]) -> CapabilityVersion>(
    registry: &CapabilityRegistry,
    request: &CapabilityFetchRequest,
    version_for: F,
) -> (r: CapabilityFetchResponse)
    requires
        forall|user: &[u8], device: &[u8]|
            registry@.contains_key((user@, device@)) ==> #[trigger] call_requires(
                version_for,
                (user, device),
            ),
    ensures
        r@.len() == request@.len(),
        forall|i: int|
            0 <= i < r@.len() ==> answers(registry@, version_for, request@[i], #[trigger] r@[i]),
{
    let mut entries: Vec<FetchedCapability> = Vec::new();
    let mut i: usize = 0;
    while i < request.keys.len()
        invariant
            i <= request.keys@.len(),
            entries@.len() == i,
            forall|user: &[u8], device: &[u8]|
                registry@.contains_key((user@, device@)) ==> #[trigger] call_requires(
                    version_for,
                    (user, device),
                ),
            forall|j: int|
                0 <= j < i ==> answers(
                    registry@,
                    version_for,
                    request.keys@[j]@,
                    (#[trigger] entries@[j])@,
                ),
        decreases request.keys@.len() - i,
    {
        let key = &request.keys[i];
        let user_id = key.user_id.as_slice();
        let device_id = key.device_id.as_slice();
        let entry = match registry.fetch(user_id, device_id) {
            Some(cap) => {
                let version: CapabilityVersion = version_for(user_id, device_id);
                assert(call_ensures(version_for, (user_id, device_id), version));
                FetchedCapability {
                    user_id: key.user_id.clone(),
                    device_id: key.device_id.clone(),
                    capability: Some(cap.clone()),
                    version,
                }
            },
            None => FetchedCapability {
                user_id: key.user_id.clone(),
                device_id: key.device_id.clone(),
                capability: None,
                version: 0,
            },
        };
        proof {
            let k = request.keys@[i as int]@;
            assert(k == (user_id@, device_id@));
            assert(entry@.user_id == k.0 && entry@.device_id == k.1);
            if registry@.contains_key(k) {
                assert(entry@.capability == Some(registry@[k]));
                assert(call_ensures(version_for, (user_id, device_id), entry@.version));
            } else {
                assert(entry@.capability is None);
                assert(entry@.version == 0);
            }
            assert(answers(registry@, version_for, k, entry@));
        }
        entries.push(entry);
        i += 1;
    }
    let r = CapabilityFetchResponse { entries };
    assert forall|k: int| 0 <= k < r@.len() implies answers(
        registry@,
        version_for,
        request@[k],
        #[trigger] r@[k],
    ) by {
        assert(r@[k] == entries@[k]@);
    }
    r
}

/// The notification that follows an accepted publication.
pub fn build_update_notification(
    user_id: Vec<u8>,
    device_id: Vec<u8>,
    version: CapabilityVersion,
) -> (r: CapabilityUpdateNotification)
    ensures
        r@ == (DeviceVersionView { user_id: user_id@, device_id: device_id@, version }),
{
    CapabilityUpdateNotification {
        user_id: VLBytes::new(user_id),
        device_id: VLBytes::new(device_id),
        version,
    }
}

/// What a device publishes is what is fetched, and it verifies under the key with
/// which it was published.
pub proof fn fetched_capabilities_verify<
    C: SignatureProvider,
    F: Fn(&[u8], &[u8]) -> CapabilityVersion,
>(
    crypto: &C,
    registry: Map<(Seq<u8>, Seq<u8>), DeviceCapabilityView>,
    request: PublishRequestView,
    version_for: F,
    entry: FetchedView,
)
    requires
        store_verdict(
            crypto,
            request.capability,
            request.signature_scheme,
            request.public_key,
        ) is Ok,
        answers(
            registry.insert((request.user_id, request.device_id), request.capability),
            version_for,
            (request.user_id, request.device_id),
            entry,
        ),
    ensures
        entry.capability == Some(request.capability),
        capability_verifies(
            crypto,
            entry.capability->Some_0,
            request.signature_scheme,
            request.public_key,
        ),
{
}

/// The scheme that has the codepoint `v`, if there is one.
pub open spec fn scheme_with_codepoint(v: nat) -> Option<SignatureScheme> {
    if exists|s: SignatureScheme| #[trigger] signature_codepoint(s) == v {
        Some(choose|s: SignatureScheme| #[trigger] signature_codepoint(s) == v)
    } else {
        None
    }
}

proof fn lemma_scheme_with_codepoint(scheme: SignatureScheme)
    ensures
        scheme_with_codepoint(signature_codepoint(scheme) as nat) == Some(scheme),
{
    let v = signature_codepoint(scheme) as nat;
    let c = choose|s: SignatureScheme| #[trigger] signature_codepoint(s) == v;
    assert(signature_codepoint(c) == v);
    signature_codepoints_are_distinct(c, scheme);
}

/// The signature scheme at the front of `s`.
pub open spec fn read_scheme_spec(s: Seq<u8>) -> Decoded<SignatureScheme> {
    match read_int_spec(s, 2) {
        Err(e) => Err(e),
        Ok((v, rest)) => match scheme_with_codepoint(v) {
            Some(scheme) => Ok((scheme, rest)),
            None => Err(
                ReadErrorView { error: TlsErrorView::UnknownValue(v as u64), unread: rest },
            ),
        },
    }
}

/// Reads a signature scheme.
fn get_scheme(bytes: &[u8]) -> (r: Result<(SignatureScheme, &[u8]), ReadError<'_>>)
    ensures
        match (r, read_scheme_spec(bytes@)) {
            (Ok((v, rest)), Ok((n, s))) => v == n && rest@ == s,
            (Err(e), Err(f)) => e@ == f,
            _ => false,
        },
{
    match get_u16(bytes) {
        Err(e) => Err(e),
        Ok((v, rest)) => match SignatureScheme::from_codepoint(v) {
            Some(scheme) => {
                proof {
                    lemma_scheme_with_codepoint(scheme);
                }
                Ok((scheme, rest))
            },
            None => Err(ReadError { error: TlsError::UnknownValue(v as u64), unread: rest }),
        },
    }
}

/// Two byte strings on the wire.
pub open spec fn pair_bytes(p: (Seq<u8>, Seq<u8>)) -> Seq<u8> {
    vector_bytes(p.0) + vector_bytes(p.1)
}

/// Whether two byte strings are short enough for the wire.
pub open spec fn pair_ok(p: (Seq<u8>, Seq<u8>)) -> bool {
    p.0.len() <= MAX_VECTOR_LENGTH && p.1.len() <= MAX_VECTOR_LENGTH
}

/// What is written of two byte strings of which one is too long.
pub open spec fn pair_begun(p: (Seq<u8>, Seq<u8>)) -> Seq<u8> {
    if p.0.len() > MAX_VECTOR_LENGTH {
        Seq::empty()
    } else {
        vector_bytes(p.0)
    }
}

/// The two byte strings at the front of `s`.
pub open spec fn read_pair_spec(s: Seq<u8>) -> Decoded<(Seq<u8>, Seq<u8>)> {
    match read_vector_spec(s) {
        Err(e) => Err(e),
        Ok((a, s)) => match read_vector_spec(s) {
            Err(e) => Err(e),
            Ok((b, s)) => Ok(((a, b), s)),
        },
    }
}

/// Two byte strings read back from their form on the wire, whatever follows.
pub proof fn pair_round_trip(p: (Seq<u8>, Seq<u8>), rest: Seq<u8>)
    requires
        pair_ok(p),
    ensures
        read_pair_spec(pair_bytes(p) + rest) == Ok::<((Seq<u8>, Seq<u8>), Seq<u8>), ReadErrorView>(
            (p, rest),
        ),
{
    lemma_assoc(vector_bytes(p.0), vector_bytes(p.1), rest);
    vector_round_trip(p.0, vector_bytes(p.1) + rest);
    vector_round_trip(p.1, rest);
}

/// What is behind two byte strings is shorter.
proof fn lemma_pair_consumes(s: Seq<u8>)
    ensures
        read_pair_spec(s) matches Ok((_, rest)) ==> rest.len() < s.len(),
{
    lemma_vector_consumes(s);
    if let Ok((_, s1)) = read_vector_spec(s) {
        lemma_vector_consumes(s1);
    }
}

/// Appends two byte strings.
fn put_pair(a: &VLBytes, b: &VLBytes, out: &mut Vec<u8>) -> (r: Result<(), TlsError>)
    ensures
        match r {
            Ok(_) => pair_ok((a@, b@)) && final(out)@ == old(out)@ + pair_bytes((a@, b@)),
            Err(e) => !pair_ok((a@, b@)) && e@ == TlsErrorView::InvalidVectorLength && final(out)@
                == old(out)@ + pair_begun((a@, b@)),
        },
{
    if let Err(e) = try_put_vector(out, a.as_slice()) {
        assert(out@ =~= old(out)@ + pair_begun((a@, b@)));
        return Err(e);
    }
    if let Err(e) = try_put_vector(out, b.as_slice()) {
        return Err(e);
    }
    assert(out@ =~= old(out)@ + pair_bytes((a@, b@)));
    Ok(())
}

/// Reads two byte strings.
fn get_pair(bytes: &[u8]) -> (r: Result<((VLBytes, VLBytes), &[u8]), ReadError<'_>>)
    ensures
        match (r, read_pair_spec(bytes@)) {
            (Ok((p, rest)), Ok((q, s))) => p.0@ == q.0 && p.1@ == q.1 && rest@ == s,
            (Err(e), Err(f)) => e@ == f,
            _ => false,
        },
{
    let (a, bytes) = match get_vector(bytes) {
        Ok(x) => x,
        Err(e) => {
            return Err(e);
        },
    };
    let (b, bytes) = match get_vector(bytes) {
        Ok(x) => x,
        Err(e) => {
            return Err(e);
        },
    };
    Ok(((VLBytes::new(a), VLBytes::new(b)), bytes))
}

impl Wire for CapabilityFetchKey {
    open spec fn wire_bytes(v: (Seq<u8>, Seq<u8>)) -> Seq<u8> {
        pair_bytes(v)
    }

    open spec fn wire_ok(v: (Seq<u8>, Seq<u8>)) -> bool {
        pair_ok(v)
    }

    open spec fn wire_begun(v: (Seq<u8>, Seq<u8>)) -> Seq<u8> {
        pair_begun(v)
    }

    open spec fn wire_read(s: Seq<u8>) -> Decoded<(Seq<u8>, Seq<u8>)> {
        read_pair_spec(s)
    }

    proof fn wire_round_trip(v: (Seq<u8>, Seq<u8>), rest: Seq<u8>) {
        pair_round_trip(v, rest);
    }

    fn put(&self, out: &mut Vec<u8>) -> (r: Result<(), TlsError>) {
        put_pair(&self.user_id, &self.device_id, out)
    }

    fn get(bytes: &[u8]) -> (r: Result<(Self, &[u8]), ReadError<'_>>) {
        match get_pair(bytes) {
            Ok(((user_id, device_id), rest)) => Ok((CapabilityFetchKey { user_id, device_id }, rest)),
            Err(e) => Err(e),
        }
    }
}

impl WireItem for CapabilityFetchKey {
    proof fn wire_read_consumes(s: Seq<u8>) {
        lemma_pair_consumes(s);
    }

    fn wire_len(&self) -> (r: u128) {
        proof {
            lemma_vector_len(self.user_id@);
            lemma_vector_len(self.device_id@);
        }
        let a: usize = self.user_id.as_slice().len();
        let b: usize = self.device_id.as_slice().len();
        wide_prefix_len(a as u128) + a as u128 + (wide_prefix_len(b as u128) + b as u128)
    }
}

impl Wire for CapabilityFetchRequest {
    open spec fn wire_bytes(v: Seq<(Seq<u8>, Seq<u8>)>) -> Seq<u8> {
        list_bytes::<CapabilityFetchKey>(v)
    }

    open spec fn wire_ok(v: Seq<(Seq<u8>, Seq<u8>)>) -> bool {
        list_ok::<CapabilityFetchKey>(v)
    }

    open spec fn wire_begun(v: Seq<(Seq<u8>, Seq<u8>)>) -> Seq<u8> {
        Seq::empty()
    }

    open spec fn wire_read(s: Seq<u8>) -> Decoded<Seq<(Seq<u8>, Seq<u8>)>> {
        read_list_spec::<CapabilityFetchKey>(s)
    }

    proof fn wire_round_trip(v: Seq<(Seq<u8>, Seq<u8>)>, rest: Seq<u8>) {
        list_round_trip::<CapabilityFetchKey>(v, rest);
    }

    fn put(&self, out: &mut Vec<u8>) -> (r: Result<(), TlsError>) {
        let r = put_list(out, self.keys.as_slice());
        assert(old(out)@ + Seq::<u8>::empty() =~= old(out)@);
        r
    }

    fn get(bytes: &[u8]) -> (r: Result<(Self, &[u8]), ReadError<'_>>) {
        match get_list::<CapabilityFetchKey>(bytes) {
            Ok((keys, rest)) => Ok((CapabilityFetchRequest { keys }, rest)),
            Err(e) => Err(e),
        }
    }
}

/// A device and a version on the wire.
pub open spec fn device_version_bytes(v: DeviceVersionView) -> Seq<u8> {
    pair_bytes((v.user_id, v.device_id)) + be_bytes(v.version as nat, 8)
}

/// Whether the identifiers are short enough for the wire.
pub open spec fn device_version_ok(v: DeviceVersionView) -> bool {
    pair_ok((v.user_id, v.device_id))
}

/// The device and the version at the front of `s`.
pub open spec fn read_device_version_spec(s: Seq<u8>) -> Decoded<DeviceVersionView> {
    match read_pair_spec(s) {
        Err(e) => Err(e),
        Ok((p, s)) => match read_int_spec(s, 8) {
            Err(e) => Err(e),
            Ok((version, s)) => Ok(
                (
                    DeviceVersionView { user_id: p.0, device_id: p.1, version: version as u64 },
                    s,
                ),
            ),
        },
    }
}

/// A device and a version read back from their form on the wire, whatever follows.
pub proof fn device_version_round_trip(v: DeviceVersionView, rest: Seq<u8>)
    requires
        device_version_ok(v),
    ensures
        read_device_version_spec(device_version_bytes(v) + rest) == Ok::<
            (DeviceVersionView, Seq<u8>),
            ReadErrorView,
        >((v, rest)),
{
    let p = (v.user_id, v.device_id);
    let e = be_bytes(v.version as nat, 8);
    lemma_pow256();
    lemma_assoc(pair_bytes(p), e, rest);
    pair_round_trip(p, e + rest);
    integer_round_trip(v.version as nat, 8, rest);
}

/// Appends a device and a version.
fn put_device_version(user_id: &VLBytes, device_id: &VLBytes, version: u64, out: &mut Vec<u8>) -> (r:
    Result<(), TlsError>)
    ensures
        ({
            let v = DeviceVersionView { user_id: user_id@, device_id: device_id@, version };
            match r {
                Ok(_) => device_version_ok(v) && final(out)@ == old(out)@ + device_version_bytes(v),
                Err(e) => !device_version_ok(v) && e@ == TlsErrorView::InvalidVectorLength
                    && final(out)@ == old(out)@ + pair_begun((user_id@, device_id@)),
            }
        }),
{
    let ghost start = out@;
    match put_pair(user_id, device_id, out) {
        Err(e) => Err(e),
        Ok(_) => {
            put_u64(out, version);
            proof {
                lemma_assoc(
                    start,
                    pair_bytes((user_id@, device_id@)),
                    be_bytes(version as nat, 8),
                );
            }
            Ok(())
        },
    }
}

/// Reads a device and a version.
fn get_device_version(bytes: &[u8]) -> (r: Result<
    ((VLBytes, VLBytes, u64), &[u8]),
    ReadError<'_>,
>)
    ensures
        match (r, read_device_version_spec(bytes@)) {
            (Ok((p, rest)), Ok((v, s))) => p.0@ == v.user_id && p.1@ == v.device_id && p.2
                == v.version && rest@ == s,
            (Err(e), Err(f)) => e@ == f,
            _ => false,
        },
{
    match get_pair(bytes) {
        Err(e) => Err(e),
        Ok(((user_id, device_id), rest)) => match get_u64(rest) {
            Err(e) => Err(e),
            Ok((version, rest)) => Ok(((user_id, device_id, version), rest)),
        },
    }
}

impl Wire for CapabilityPublishResponse {
    open spec fn wire_bytes(v: DeviceVersionView) -> Seq<u8> {
        device_version_bytes(v)
    }

    open spec fn wire_ok(v: DeviceVersionView) -> bool {
        device_version_ok(v)
    }

    open spec fn wire_begun(v: DeviceVersionView) -> Seq<u8> {
        pair_begun((v.user_id, v.device_id))
    }

    open spec fn wire_read(s: Seq<u8>) -> Decoded<DeviceVersionView> {
        read_device_version_spec(s)
    }

    proof fn wire_round_trip(v: DeviceVersionView, rest: Seq<u8>) {
        device_version_round_trip(v, rest);
    }

    fn put(&self, out: &mut Vec<u8>) -> (r: Result<(), TlsError>) {
        put_device_version(&self.user_id, &self.device_id, self.version, out)
    }

    fn get(bytes: &[u8]) -> (r: Result<(Self, &[u8]), ReadError<'_>>) {
        match get_device_version(bytes) {
            Ok(((user_id, device_id, version), rest)) => Ok(
                (CapabilityPublishResponse { user_id, device_id, version }, rest),
            ),
            Err(e) => Err(e),
        }
    }
}

impl Wire for CapabilityUpdateNotification {
    open spec fn wire_bytes(v: DeviceVersionView) -> Seq<u8> {
        device_version_bytes(v)
    }

    open spec fn wire_ok(v: DeviceVersionView) -> bool {
        device_version_ok(v)
    }

    open spec fn wire_begun(v: DeviceVersionView) -> Seq<u8> {
        pair_begun((v.user_id, v.device_id))
    }

    open spec fn wire_read(s: Seq<u8>) -> Decoded<DeviceVersionView> {
        read_device_version_spec(s)
    }

    proof fn wire_round_trip(v: DeviceVersionView, rest: Seq<u8>) {
        device_version_round_trip(v, rest);
    }

    fn put(&self, out: &mut Vec<u8>) -> (r: Result<(), TlsError>) {
        put_device_version(&self.user_id, &self.device_id, self.version, out)
    }

    fn get(bytes: &[u8]) -> (r: Result<(Self, &[u8]), ReadError<'_>>) {
        match get_device_version(bytes) {
            Ok(((user_id, device_id, version), rest)) => Ok(
                (CapabilityUpdateNotification { user_id, device_id, version }, rest),
            ),
            Err(e) => Err(e),
        }
    }
}

/// An optional capability on the wire: a flag, and the capability if there is one.
pub open spec fn opt_capability_bytes(c: Option<DeviceCapabilityView>) -> Seq<u8> {
    match c {
        None => be_bytes(0, 1),
        Some(c) => be_bytes(1, 1) + capability_bytes(c),
    }
}

/// The optional capability at the front of `s`.
pub open spec fn read_opt_capability_spec(s: Seq<u8>) -> Decoded<Option<DeviceCapabilityView>> {
    match read_int_spec(s, 1) {
        Err(e) => Err(e),
        Ok((flag, s)) => if flag == 0 {
            Ok((None, s))
        } else if flag == 1 {
            match read_capability_spec(s, false) {
                Err(e) => Err(e),
                Ok((c, s)) => Ok((Some(c), s)),
            }
        } else {
            Err(
                ReadErrorView {
                    error: TlsErrorView::DecodingError(
                        "Trying to decode Option<T> with "@ + decimal(flag)
                            + " for option. It must be 0 for None and 1 for Some."@,
                    ),
                    unread: s,
                },
            )
        },
    }
}

proof fn lemma_opt_capability_round_trip(c: Option<DeviceCapabilityView>, rest: Seq<u8>)
    requires
        c matches Some(v) ==> capability_encodable(v),
    ensures
        read_opt_capability_spec(opt_capability_bytes(c) + rest) == Ok::<
            (Option<DeviceCapabilityView>, Seq<u8>),
            ReadErrorView,
        >((c, rest)),
{
    lemma_pow256();
    match c {
        None => {
            integer_round_trip(0, 1, rest);
        },
        Some(v) => {
            lemma_assoc(be_bytes(1, 1), capability_bytes(v), rest);
            integer_round_trip(1, 1, capability_bytes(v) + rest);
            capability_round_trip(v, rest, false);
        },
    }
}

/// Reads an optional capability.
fn get_opt_capability(bytes: &[u8]) -> (r: Result<
    (Option<DeviceCapability>, &[u8]),
    ReadError<'_>,
>)
    ensures
        match (r, read_opt_capability_spec(bytes@)) {
            (Ok((c, rest)), Ok((v, s))) => opt_capability(c) == v && rest@ == s,
            (Err(e), Err(f)) => e@ == f,
            _ => false,
        },
{
    let (flag, bytes) = match get_u8(bytes) {
        Ok(x) => x,
        Err(e) => {
            return Err(e);
        },
    };
    if flag == 0 {
        Ok((None, bytes))
    } else if flag == 1 {
        match DeviceCapability::read(bytes, false) {
            Ok((c, rest)) => Ok((Some(c), rest)),
            Err(e) => Err(e),
        }
    } else {
        let mut text: String = "Trying to decode Option<T> with ".to_owned();
        push_decimal(&mut text, flag as u64);
        text.append(" for option. It must be 0 for None and 1 for Some.");
        Err(ReadError { error: TlsError::DecodingError(text), unread: bytes })
    }
}

impl Wire for FetchedCapability {
    open spec fn wire_bytes(v: FetchedView) -> Seq<u8> {
        pair_bytes((v.user_id, v.device_id)) + (opt_capability_bytes(v.capability) + be_bytes(
            v.version as nat,
            8,
        ))
    }

    open spec fn wire_ok(v: FetchedView) -> bool {
        pair_ok((v.user_id, v.device_id)) && (v.capability matches Some(c) ==> capability_encodable(
            c,
        ))
    }

    open spec fn wire_begun(v: FetchedView) -> Seq<u8> {
        let p = (v.user_id, v.device_id);
        if !pair_ok(p) {
            pair_begun(p)
        } else {
            pair_bytes(p) + (match v.capability {
                None => Seq::empty(),
                Some(c) => be_bytes(1, 1) + capability_begun(c),
            })
        }
    }

    open spec fn wire_read(s: Seq<u8>) -> Decoded<FetchedView> {
        match read_pair_spec(s) {
            Err(e) => Err(e),
            Ok((p, s)) => match read_opt_capability_spec(s) {
                Err(e) => Err(e),
                Ok((capability, s)) => match read_int_spec(s, 8) {
                    Err(e) => Err(e),
                    Ok((version, s)) => Ok(
                        (
                            FetchedView {
                                user_id: p.0,
                                device_id: p.1,
                                capability,
                                version: version as u64,
                            },
                            s,
                        ),
                    ),
                },
            },
        }
    }

    proof fn wire_round_trip(v: FetchedView, rest: Seq<u8>) {
        let p = (v.user_id, v.device_id);
        let c = opt_capability_bytes(v.capability);
        let e = be_bytes(v.version as nat, 8);
        lemma_pow256();
        lemma_assoc(pair_bytes(p), c + e, rest);
        lemma_assoc(c, e, rest);
        pair_round_trip(p, c + (e + rest));
        lemma_opt_capability_round_trip(v.capability, e + rest);
        integer_round_trip(v.version as nat, 8, rest);
    }

    fn put(&self, out: &mut Vec<u8>) -> (r: Result<(), TlsError>) {
        let ghost start = out@;
        let ghost p = pair_bytes((self.user_id@, self.device_id@));
        let ghost c = opt_capability_bytes(self@.capability);
        if let Err(e) = put_pair(&self.user_id, &self.device_id, out) {
            return Err(e);
        }
        match &self.capability {
            None => {
                put_u8(out, 0);
            },
            Some(capability) => {
                put_u8(out, 1);
                if let Err(e) = capability.tls_serialize(out) {
                    assert(out@ =~= start + Self::wire_begun(self@));
                    return Err(e);
                }
                proof {
                    lemma_assoc(start + p, be_bytes(1, 1), capability_bytes(capability@));
                }
            },
        }
        put_u64(out, self.version);
        proof {
            lemma_assoc(start + p, c, be_bytes(self.version as nat, 8));
            lemma_assoc(start, p, c + be_bytes(self.version as nat, 8));
        }
        Ok(())
    }

    fn get(bytes: &[u8]) -> (r: Result<(Self, &[u8]), ReadError<'_>>) {
        let ((user_id, device_id), bytes) = match get_pair(bytes) {
            Ok(x) => x,
            Err(e) => {
                return Err(e);
            },
        };
        let (capability, bytes) = match get_opt_capability(bytes) {
            Ok(x) => x,
            Err(e) => {
                return Err(e);
            },
        };
        let (version, bytes) = match get_u64(bytes) {
            Ok(x) => x,
            Err(e) => {
                return Err(e);
            },
        };
        Ok((FetchedCapability { user_id, device_id, capability, version }, bytes))
    }
}

impl WireItem for FetchedCapability {
    proof fn wire_read_consumes(s: Seq<u8>) {
        lemma_pair_consumes(s);
        if let Ok((_, s1)) = read_pair_spec(s) {
            lemma_int_consumes(s1, 1);
            if let Ok((_, s2)) = read_int_spec(s1, 1) {
                lemma_capability_consumes(s2);
            }
            if let Ok((_, s3)) = read_opt_capability_spec(s1) {
                lemma_int_consumes(s3, 8);
            }
        }
    }

    fn wire_len(&self) -> (r: u128) {
        proof {
            lemma_vector_len(self.user_id@);
            lemma_vector_len(self.device_id@);
            lemma_be_bytes_len(0, 1);
            lemma_be_bytes_len(1, 1);
            lemma_be_bytes_len(self.version as nat, 8);
        }
        let a: usize = self.user_id.as_slice().len();
        let b: usize = self.device_id.as_slice().len();
        let c: u128 = match &self.capability {
            None => 1,
            Some(capability) => 1 + capability.wire_size(),
        };
        wide_prefix_len(a as u128) + a as u128 + (wide_prefix_len(b as u128) + b as u128) + (c + 8)
    }
}

impl Wire for CapabilityFetchResponse {
    open spec fn wire_bytes(v: Seq<FetchedView>) -> Seq<u8> {
        list_bytes::<FetchedCapability>(v)
    }

    open spec fn wire_ok(v: Seq<FetchedView>) -> bool {
        list_ok::<FetchedCapability>(v)
    }

    open spec fn wire_begun(v: Seq<FetchedView>) -> Seq<u8> {
        Seq::empty()
    }

    open spec fn wire_read(s: Seq<u8>) -> Decoded<Seq<FetchedView>> {
        read_list_spec::<FetchedCapability>(s)
    }

    proof fn wire_round_trip(v: Seq<FetchedView>, rest: Seq<u8>) {
        list_round_trip::<FetchedCapability>(v, rest);
    }

    fn put(&self, out: &mut Vec<u8>) -> (r: Result<(), TlsError>) {
        let r = put_list(out, self.entries.as_slice());
        assert(old(out)@ + Seq::<u8>::empty() =~= old(out)@);
        r
    }

    fn get(bytes: &[u8]) -> (r: Result<(Self, &[u8]), ReadError<'_>>) {
        match get_list::<FetchedCapability>(bytes) {
            Ok((entries, rest)) => Ok((CapabilityFetchResponse { entries }, rest)),
            Err(e) => Err(e),
        }
    }
}

impl Wire for CapabilityPublishRequest {
    open spec fn wire_bytes(v: PublishRequestView) -> Seq<u8> {
        pair_bytes((v.user_id, v.device_id)) + (be_bytes(
            signature_codepoint(v.signature_scheme) as nat,
            2,
        ) + (vector_bytes(v.public_key) + capability_bytes(v.capability)))
    }

    open spec fn wire_ok(v: PublishRequestView) -> bool {
        pair_ok((v.user_id, v.device_id)) && v.public_key.len() <= MAX_VECTOR_LENGTH
            && capability_encodable(v.capability)
    }

    open spec fn wire_begun(v: PublishRequestView) -> Seq<u8> {
        let p = (v.user_id, v.device_id);
        let scheme = pair_bytes(p) + be_bytes(signature_codepoint(v.signature_scheme) as nat, 2);
        if !pair_ok(p) {
            pair_begun(p)
        } else if v.public_key.len() > MAX_VECTOR_LENGTH {
            scheme
        } else {
            scheme + vector_bytes(v.public_key) + capability_begun(v.capability)
        }
    }

    open spec fn wire_read(s: Seq<u8>) -> Decoded<PublishRequestView> {
        match read_pair_spec(s) {
            Err(e) => Err(e),
            Ok((p, s)) => match read_scheme_spec(s) {
                Err(e) => Err(e),
                Ok((signature_scheme, s)) => match read_vector_spec(s) {
                    Err(e) => Err(e),
                    Ok((public_key, s)) => match read_capability_spec(s, false) {
                        Err(e) => Err(e),
                        Ok((capability, s)) => Ok(
                            (
                                PublishRequestView {
                                    user_id: p.0,
                                    device_id: p.1,
                                    signature_scheme,
                                    public_key,
                                    capability,
                                },
                                s,
                            ),
                        ),
                    },
                },
            },
        }
    }

    proof fn wire_round_trip(v: PublishRequestView, rest: Seq<u8>) {
        let p = (v.user_id, v.device_id);
        let n = signature_codepoint(v.signature_scheme) as nat;
        let g = be_bytes(n, 2);
        let k = vector_bytes(v.public_key);
        let c = capability_bytes(v.capability);
        lemma_pow256();
        lemma_assoc(pair_bytes(p), g + (k + c), rest);
        lemma_assoc(g, k + c, rest);
        lemma_assoc(k, c, rest);
        pair_round_trip(p, g + (k + (c + rest)));
        integer_round_trip(n, 2, k + (c + rest));
        lemma_scheme_with_codepoint(v.signature_scheme);
        vector_round_trip(v.public_key, c + rest);
        capability_round_trip(v.capability, rest, false);
    }

    fn put(&self, out: &mut Vec<u8>) -> (r: Result<(), TlsError>) {
        let ghost start = out@;
        let ghost p = pair_bytes((self.user_id@, self.device_id@));
        let ghost g = be_bytes(signature_codepoint(self.signature_scheme) as nat, 2);
        let ghost k = vector_bytes(self.public_key@);
        let ghost c = capability_bytes(self.capability@);
        if let Err(e) = put_pair(&self.user_id, &self.device_id, out) {
            return Err(e);
        }
        put_u16(out, self.signature_scheme.codepoint());
        if let Err(e) = try_put_vector(out, self.public_key.as_slice()) {
            assert(out@ =~= start + Self::wire_begun(self@));
            return Err(e);
        }
        if let Err(e) = self.capability.tls_serialize(out) {
            assert(out@ =~= start + Self::wire_begun(self@));
            return Err(e);
        }
        proof {
            lemma_assoc(start + p + g, k, c);
            lemma_assoc(start + p, g, k + c);
            lemma_assoc(start, p, g + (k + c));
        }
        Ok(())
    }

    fn get(bytes: &[u8]) -> (r: Result<(Self, &[u8]), ReadError<'_>>) {
        let ((user_id, device_id), bytes) = match get_pair(bytes) {
            Ok(x) => x,
            Err(e) => {
                return Err(e);
            },
        };
        let (signature_scheme, bytes) = match get_scheme(bytes) {
            Ok(x) => x,
            Err(e) => {
                return Err(e);
            },
        };
        let (public_key, bytes) = match get_vector(bytes) {
            Ok(x) => x,
            Err(e) => {
                return Err(e);
            },
        };
        let (capability, bytes) = match DeviceCapability::read(bytes, false) {
            Ok(x) => x,
            Err(e) => {
                return Err(e);
            },
        };
        Ok(
            (
                CapabilityPublishRequest {
                    user_id,
                    device_id,
                    signature_scheme,
                    public_key: VLBytes::new(public_key),
                    capability,
                },
                bytes,
            ),
        )
    }
}

/// The text of an error.
pub open spec fn protocol_error_text(e: ProtocolError) -> Seq<char> {
    match e {
        ProtocolError::Registry(inner) => registry_error_text(inner),
    }
}

impl ProtocolError {
    /// The text of an error.
    pub fn message(&self) -> (r: String)
        ensures
            r@ == protocol_error_text(*self),
    {
        match self {
            ProtocolError::Registry(inner) => inner.message(),
        }
    }
}

/// An answer is about the device that was asked for. It holds a capability exactly when
/// the registry has one, and then that very one, with a version that `version_for` gave
/// for that device. For an unknown device the version is 0.
pub proof fn answers_are_what_the_registry_holds<
    F: Fn(&[u8], &[u8]) -> CapabilityVersion,
>(
    registry: Map<(Seq<u8>, Seq<u8>), DeviceCapabilityView>,
    version_for: F,
    key: (Seq<u8>, Seq<u8>),
    entry: FetchedView,
)
    requires
        answers(registry, version_for, key, entry),
    ensures
        (entry.user_id, entry.device_id) == key,
        entry.capability is Some <==> registry.contains_key(key),
        entry.capability matches Some(c) ==> c == registry[key] && exists|
            user: &[u8],
            device: &[u8],
        |
            (user@, device@) == key && #[trigger] call_ensures(
                version_for,
                (user, device),
                entry.version,
            ),
        entry.capability is None ==> entry.version == 0,
{
}

/// Publishing for one device changes no answer for another.
pub proof fn publications_change_no_other_answer<
    F: Fn(&[u8], &[u8]) -> CapabilityVersion,
>(
    registry: Map<(Seq<u8>, Seq<u8>), DeviceCapabilityView>,
    version_for: F,
    device: (Seq<u8>, Seq<u8>),
    capability: DeviceCapabilityView,
    key: (Seq<u8>, Seq<u8>),
    entry: FetchedView,
)
    requires
        key != device,
    ensures
        answers(registry.insert(device, capability), version_for, key, entry) <==> answers(
            registry,
            version_for,
            key,
            entry,
        ),
{
}

/// What reads as a device with its version is the form of that device and version: the
/// user, the device, and eight bytes for the version.
pub proof fn device_versions_have_one_form(s: Seq<u8>, v: DeviceVersionView)
    ensures
        read_device_version_spec(s) matches Ok((w, rest)) ==> s == device_version_bytes(w) + rest
            && device_version_ok(w),
        device_version_bytes(v) == vector_bytes(v.user_id) + vector_bytes(v.device_id) + be_bytes(
            v.version as nat,
            8,
        ),
{
    lemma_pow256();
    byte_strings_have_one_form(s);
    if let Ok((a, s1)) = read_vector_spec(s) {
        byte_strings_have_one_form(s1);
        if let Ok((b, s2)) = read_vector_spec(s1) {
            integers_have_one_form(s2, 8);
            if let Ok((n, rest)) = read_int_spec(s2, 8) {
                lemma_assoc(vector_bytes(a), vector_bytes(b), be_bytes(n, 8) + rest);
                lemma_assoc(pair_bytes((a, b)), be_bytes(n, 8), rest);
            }
        }
    }
}

} // verus!
