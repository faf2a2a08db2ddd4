//! The capabilities that a server keeps.
//!
//! A capability is kept only if it carries a signature that verifies. So a server
//! cannot claim of a device what the device has not signed.
use crate::assoc::{distinct_keys, entry_map, lemma_entry_in_map, AssocMap, MapKey};
use crate::bytes::bytes_equal;
use crate::credentials::device_capability::{
    capability_payload, capability_verifies, payload_encodable, DeviceCapability,
    DeviceCapabilityView,
};
use crate::crypto::SignatureProvider;
use crate::types::{DeviceKey, SignatureScheme};
use vstd::prelude::*;
use vstd::string::*;

verus! {

/// Why a capability is not kept.
#[derive(Debug, Clone, Copy, PartialEq, Eq, Structural)]
pub enum RegistryError {
    /// It has no signature.
    UnsignedCapability,
    /// Its signature does not verify.
    InvalidSignature,
}

/// The capability of each device. A new one replaces the old one.
#[derive(Debug)]
pub struct CapabilityRegistry {
    entries: AssocMap<DeviceKey, DeviceCapability>,
}

impl View for CapabilityRegistry {
    type V = Map<(Seq<u8>, Seq<u8>), DeviceCapabilityView>;

    closed spec fn view(&self) -> Map<(Seq<u8>, Seq<u8>), DeviceCapabilityView> {
        self.entries@.map_values(|c: DeviceCapability| c@)
    }
}

/// What becomes of a capability, and why it is not kept.
pub open spec fn store_verdict<C: SignatureProvider>(
    crypto: &C,
    capability: DeviceCapabilityView,
    scheme: SignatureScheme,
    public_key: Seq<u8>,
) -> Result<(), RegistryError> {
    if capability.capability_signature.len() == 0 {
        Err(RegistryError::UnsignedCapability)
    } else if !capability_verifies(crypto, capability, scheme, public_key) {
        Err(RegistryError::InvalidSignature)
    } else {
        Ok(())
    }
}

/// `true` if `found` are the capabilities of `devices`, in the same order.
pub open spec fn are_found(
    registry: Map<(Seq<u8>, Seq<u8>), DeviceCapabilityView>,
    user_id: Seq<u8>,
    devices: Seq<Seq<u8>>,
    found: Seq<&DeviceCapability>,
) -> bool {
    found.len() == devices.len() && forall|i: int|
        0 <= i < found.len() ==> (#[trigger] found[i])@ == registry[(user_id, devices[i])]
}

/// `true` if `found` are the capabilities of the user's devices: those of
/// `devices`, which are all of them, each once.
pub open spec fn are_devices_of(
    registry: Map<(Seq<u8>, Seq<u8>), DeviceCapabilityView>,
    user_id: Seq<u8>,
    devices: Seq<Seq<u8>>,
    found: Seq<&DeviceCapability>,
) -> bool {
    &&& devices.no_duplicates()
    &&& forall|d: Seq<u8>| devices.contains(d) <==> #[trigger] registry.contains_key((user_id, d))
    &&& are_found(registry, user_id, devices, found)
}

impl CapabilityRegistry {
    /// A registry without entries.
    pub fn new() -> (r: Self)
        ensures
            r@ == Map::<(Seq<u8>, Seq<u8>), DeviceCapabilityView>::empty(),
    {
        let r = CapabilityRegistry { entries: AssocMap::new() };
        assert(r@ =~= Map::<(Seq<u8>, Seq<u8>), DeviceCapabilityView>::empty());
        r
    }

    /// The number of devices.
    pub fn len(&self) -> (r: usize)
        ensures
            r == self@.dom().len(),
    {
        assert(self@.dom() =~= self.entries@.dom());
        self.entries.len()
    }

    /// Whether there are no devices.
    pub fn is_empty(&self) -> (r: bool)
        ensures
            r == (self@.dom().len() == 0),
    {
        self.len() == 0
    }

    /// Keeps the capability of a device, if its signature verifies.
    pub fn store<C: SignatureProvider>(
        &mut self,
        user_id: Vec<u8>,
        device_id: Vec<u8>,
        capability: DeviceCapability,
        signature_scheme: SignatureScheme,
        public_key: &[u8],
        crypto: &C,
    ) -> (r: Result<(), RegistryError>)
        requires
            capability@.capability_signature.len() > 0 ==> payload_encodable(capability@),
        ensures
            r == store_verdict(crypto, capability@, signature_scheme, public_key@),
            final(self)@ == (if r is Ok {
                old(self)@.insert((user_id@, device_id@), capability@)
            } else {
                old(self)@
            }),
    {
        if !capability.is_signed() {
            return Err(RegistryError::UnsignedCapability);
        }
        if capability.verify(signature_scheme, public_key, crypto).is_err() {
            return Err(RegistryError::InvalidSignature);
        }
        self.entries.insert(DeviceKey { user_id, device_id }, capability);
        assert(self@ =~= old(self)@.insert((user_id@, device_id@), capability@));
        Ok(())
    }

    /// The capability of a device.
    pub fn fetch(&self, user_id: &[u8], device_id: &[u8]) -> (r: Option<&DeviceCapability>)
        ensures
            match r {
                Some(c) => self@.contains_key((user_id@, device_id@)) && self@[(
                    user_id@,
                    device_id@,
                )] == c@,
                None => !self@.contains_key((user_id@, device_id@)),
            },
    {
        self.entries.get(&DeviceKey::from_slices(user_id, device_id))
    }

    /// The capabilities of all devices of a user, in no particular order.
    pub fn fetch_all_for_user(&self, user_id: &[u8]) -> (r: Vec<&DeviceCapability>)
        ensures
            exists|devices: Seq<Seq<u8>>| are_devices_of(self@, user_id@, devices, r@),
    {
        let mut found: Vec<&DeviceCapability> = Vec::new();
        let ghost mut devices: Seq<Seq<u8>> = Seq::empty();
        let count: usize = self.entries.len();
        let ghost listed = self.entries.listed();
        let mut i: usize = 0;
        while i < count
            invariant
                i <= count,
                count == listed.len(),
                listed == self.entries.listed(),
                distinct_keys(listed),
                self.entries@ == entry_map(listed),
                are_found(self@, user_id@, devices, found@),
                devices.no_duplicates(),
                forall|d: Seq<u8>|
                    devices.contains(d) <==> exists|j: int|
                        0 <= j < i && #[trigger] listed[j].0@ == (user_id@, d),
            decreases count - i,
        {
            let entry = self.entries.entry_at(i);
            proof {
                lemma_entry_in_map(listed, i as int);
            }
            if bytes_equal(entry.0.user_id.as_slice(), user_id) {
                let ghost d = entry.0.device_id@;
                let ghost before = devices;
                let ghost found_before = found@;
                found.push(&entry.1);
                proof {
                    assert(listed[i as int].0@ == (user_id@, d));
                    assert(!before.contains(d)) by {
                        if before.contains(d) {
                            let j = choose|j: int|
                                0 <= j < i && #[trigger] listed[j].0@ == (user_id@, d);
                            assert(listed[j].0.model() == listed[i as int].0.model());
                        }
                    }
                    devices = before.push(d);
                    assert forall|e: Seq<u8>|
                        devices.contains(e) <==> exists|j: int|
                            0 <= j < i + 1 && #[trigger] listed[j].0@ == (user_id@, e) by {
                        if devices.contains(e) {
                            let k = choose|k: int| 0 <= k < devices.len() && devices[k] == e;
                            if k < before.len() {
                                assert(before.contains(before[k]));
                            }
                        }
                        if exists|j: int| 0 <= j < i + 1 && #[trigger] listed[j].0@ == (
                        user_id@, e) {
                            let j = choose|j: int|
                                0 <= j < i + 1 && #[trigger] listed[j].0@ == (user_id@, e);
                            if j < i {
                                assert(before.contains(e));
                                let k = choose|k: int| 0 <= k < before.len() && before[k] == e;
                                assert(devices[k] == e);
                            } else {
                                assert(devices[before.len() as int] == e);
                            }
                        }
                    }
                    assert forall|k: int| 0 <= k < found@.len() implies (#[trigger] found@[k])@
                        == self@[(user_id@, devices[k])] by {
                        if k < before.len() {
                            assert(devices[k] == before[k]);
                            assert(found@[k] == found_before[k]);
                        } else {
                            assert(devices[k] == d);
                            assert(self.entries@[(user_id@, d)] == entry.1);
                            assert(self@[(user_id@, d)] == entry.1@);
                            assert(found@[k] == entry.1);
                        }
                    }
                }
            } else {
                assert forall|e: Seq<u8>|
                    devices.contains(e) <==> exists|j: int|
                        0 <= j < i + 1 && #[trigger] listed[j].0@ == (user_id@, e) by {}
            }
            i += 1;
        }
        proof {
            assert forall|d: Seq<u8>|
                devices.contains(d) <==> #[trigger] self@.contains_key((user_id@, d)) by {
                if devices.contains(d) {
                    let j = choose|j: int|
                        0 <= j < listed.len() && #[trigger] listed[j].0@ == (user_id@, d);
                    lemma_entry_in_map(listed, j);
                }
                if self@.contains_key((user_id@, d)) {
                    let j = choose|j: int|
                        0 <= j < listed.len() && #[trigger] listed[j].0.model() == (user_id@, d);
                    assert(listed[j].0@ == (user_id@, d));
                }
            }
            assert(are_devices_of(self@, user_id@, devices, found@));
        }
        found
    }

    /// Forgets the capability of a device, and returns whether there was one.
    pub fn remove(&mut self, user_id: &[u8], device_id: &[u8]) -> (r: bool)
        ensures
            r == old(self)@.contains_key((user_id@, device_id@)),
            final(self)@ == old(self)@.remove((user_id@, device_id@)),
    {
        let removed = self.entries.remove(&DeviceKey::from_slices(user_id, device_id)).is_some();
        assert(self@ =~= old(self)@.remove((user_id@, device_id@)));
        removed
    }
}

impl Default for CapabilityRegistry {
    fn default() -> (r: Self)
        ensures
            r@ == Map::<(Seq<u8>, Seq<u8>), DeviceCapabilityView>::empty(),
    {
        CapabilityRegistry::new()
    }
}

/// `true` if each kept capability has a signature that verifies under some key.
pub open spec fn all_verify<C: SignatureProvider>(
    crypto: &C,
    registry: Map<(Seq<u8>, Seq<u8>), DeviceCapabilityView>,
) -> bool {
    forall|k: (Seq<u8>, Seq<u8>)| #[trigger]
        registry.contains_key(k) ==> exists|scheme: SignatureScheme, key: Seq<u8>|
            capability_verifies(crypto, registry[k], scheme, key)
}

/// Only what verifies is ever kept: storing and removing keep it so.
pub proof fn registry_holds_only_what_verifies<C: SignatureProvider>(
    crypto: &C,
    registry: Map<(Seq<u8>, Seq<u8>), DeviceCapabilityView>,
    device: (Seq<u8>, Seq<u8>),
    capability: DeviceCapabilityView,
    scheme: SignatureScheme,
    key: Seq<u8>,
)
    requires
        all_verify(crypto, registry),
    ensures
        store_verdict(crypto, capability, scheme, key) is Ok ==> all_verify(
            crypto,
            registry.insert(device, capability),
        ),
        all_verify(crypto, registry.remove(device)),
        all_verify(crypto, Map::empty()),
{
    let stored = registry.insert(device, capability);
    let removed = registry.remove(device);
    if store_verdict(crypto, capability, scheme, key) is Ok {
        assert(capability_verifies(crypto, capability, scheme, key));
        assert forall|k: (Seq<u8>, Seq<u8>)| #[trigger] stored.contains_key(k) implies exists|
            s: SignatureScheme,
            p: Seq<u8>,
        | capability_verifies(crypto, stored[k], s, p) by {
            if k != device {
                assert(registry.contains_key(k));
                let (s, p) = choose|s: SignatureScheme, p: Seq<u8>|
                    capability_verifies(crypto, registry[k], s, p);
                assert(stored[k] == registry[k]);
                assert(capability_verifies(crypto, stored[k], s, p));
            } else {
                assert(capability_verifies(crypto, stored[k], scheme, key));
            }
        }
    }
    assert forall|k: (Seq<u8>, Seq<u8>)| #[trigger] removed.contains_key(k) implies exists|
        s: SignatureScheme,
        p: Seq<u8>,
    | capability_verifies(crypto, removed[k], s, p) by {
        assert(registry.contains_key(k));
        let (s, p) = choose|s: SignatureScheme, p: Seq<u8>|
            capability_verifies(crypto, registry[k], s, p);
        assert(removed[k] == registry[k]);
        assert(capability_verifies(crypto, removed[k], s, p));
    }
}

/// The text of an error.
pub open spec fn registry_error_text(e: RegistryError) -> Seq<char> {
    match e {
        RegistryError::UnsignedCapability => "capability blob is unsigned"@,
        RegistryError::InvalidSignature => "capability signature failed verification"@,
    }
}

impl RegistryError {
    /// The text of an error.
    pub fn message(&self) -> (r: String)
        ensures
            r@ == registry_error_text(*self),
    {
        match self {
            RegistryError::UnsignedCapability => "capability blob is unsigned".to_owned(),
            RegistryError::InvalidSignature => "capability signature failed verification".to_owned(),
        }
    }
}

/// A capability is kept exactly when it has a signature that the provider accepts. It is
/// called unsigned exactly when it has no signature at all.
pub proof fn capabilities_are_kept_iff_they_verify<C: SignatureProvider>(
    crypto: &C,
    c: DeviceCapabilityView,
    scheme: SignatureScheme,
    public: Seq<u8>,
)
    ensures
        store_verdict(crypto, c, scheme, public) is Ok <==> c.capability_signature.len() > 0
            && crypto.verification(
            scheme,
            capability_payload(c),
            public,
            c.capability_signature,
        ) is Ok,
        store_verdict(crypto, c, scheme, public) == Err::<(), RegistryError>(
            RegistryError::UnsignedCapability,
        ) <==> c.capability_signature.len() == 0,
{
}

/// The list of a user's devices is complete: as many capabilities are found as the user
/// has devices, that of each device is among them, and each is that of a device.
pub proof fn every_device_is_found(
    registry: Map<(Seq<u8>, Seq<u8>), DeviceCapabilityView>,
    user_id: Seq<u8>,
    devices: Seq<Seq<u8>>,
    found: Seq<&DeviceCapability>,
    device: Seq<u8>,
    place: int,
)
    requires
        are_devices_of(registry, user_id, devices, found),
    ensures
        registry.contains_key((user_id, device)) ==> exists|i: int|
            0 <= i < found.len() && (#[trigger] found[i])@ == registry[(user_id, device)],
        0 <= place < found.len() ==> exists|d: Seq<u8>| #[trigger]
            registry.contains_key((user_id, d)) && found[place]@ == registry[(user_id, d)],
        found.len() == devices.to_set().len(),
        forall|d: Seq<u8>| #[trigger]
            devices.to_set().contains(d) <==> registry.contains_key((user_id, d)),
{
    if registry.contains_key((user_id, device)) {
        assert(devices.contains(device));
        let i = choose|i: int| 0 <= i < devices.len() && devices[i] == device;
        assert(found[i]@ == registry[(user_id, devices[i])]);
    }
    if 0 <= place < found.len() {
        assert(devices.contains(devices[place]));
        assert(registry.contains_key((user_id, devices[place])));
    }
    devices.unique_seq_to_set();
    assert forall|d: Seq<u8>| #[trigger]
        devices.to_set().contains(d) <==> registry.contains_key((user_id, d)) by {
        assert(devices.contains(d) <==> registry.contains_key((user_id, d)));
    }
}

} // verus!
