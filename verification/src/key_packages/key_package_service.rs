//! The key packages that a server hands out.
//!
//! There is one place for each device and suite. An ordinary key package is handed
//! out once. A last-resort one has a place of its own, is handed out when there is
//! no ordinary one, and stays.
use crate::assoc::{distinct_keys, entry_map, lemma_entry_in_map, AssocMap, MapKey};
use crate::bytes::bytes_equal;
use crate::key_packages::multi_ciphersuite::MAX_KEY_PACKAGES_PER_DEVICE;
use crate::mls::{KeyPackage, KeyPackageView};
use crate::text::{byte_list, decimal, push_byte_list, push_decimal};
use crate::types::{ciphersuite_name, Ciphersuite, Slot, SlotKey};
use vstd::prelude::*;
use vstd::string::*;

verus! {

/// Why a key package is not taken.
#[derive(Debug, PartialEq, Eq)]
pub enum ServiceError {
    /// The device has as many key packages as it may have.
    PerDeviceCapExceeded {
        /// The user.
        user_id: Vec<u8>,
        /// The device.
        device_id: Vec<u8>,
        /// How many it may have.
        cap: usize,
    },
    /// The place is taken.
    DuplicateEntry {
        /// The user.
        user_id: Vec<u8>,
        /// The device.
        device_id: Vec<u8>,
        /// The suite.
        ciphersuite: Ciphersuite,
    },
}

/// A `ServiceError` with its identifiers as sequences.
pub enum ServiceErrorView {
    /// See `ServiceError::PerDeviceCapExceeded`.
    PerDeviceCapExceeded {
        /// The user.
        user_id: Seq<u8>,
        /// The device.
        device_id: Seq<u8>,
        /// How many it may have.
        cap: usize,
    },
    /// See `ServiceError::DuplicateEntry`.
    DuplicateEntry {
        /// The user.
        user_id: Seq<u8>,
        /// The device.
        device_id: Seq<u8>,
        /// The suite.
        ciphersuite: Ciphersuite,
    },
}

impl View for ServiceError {
    type V = ServiceErrorView;

    open spec fn view(&self) -> ServiceErrorView {
        match self {
            ServiceError::PerDeviceCapExceeded {
                user_id,
                device_id,
                cap,
            } => ServiceErrorView::PerDeviceCapExceeded {
                user_id: user_id@,
                device_id: device_id@,
                cap: *cap,
            },
            ServiceError::DuplicateEntry {
                user_id,
                device_id,
                ciphersuite,
            } => ServiceErrorView::DuplicateEntry {
                user_id: user_id@,
                device_id: device_id@,
                ciphersuite: *ciphersuite,
            },
        }
    }
}

/// A key package and what the server knows of it.
#[derive(Debug, PartialEq, Eq)]
pub struct KeyPackageEntry {
    /// The key package.
    pub key_package: KeyPackage,
    /// The version of the device's capability when it was published.
    pub capability_version: u64,
    /// When the key package expires, in Unix seconds.
    pub expiry: u64,
    /// Whether it is a last-resort one.
    pub last_resort: bool,
}

/// A `KeyPackageEntry` over the view of its key package.
#[verifier::ext_equal]
pub struct EntryView {
    /// See `KeyPackageEntry::key_package`.
    pub key_package: KeyPackageView,
    /// See `KeyPackageEntry::capability_version`.
    pub capability_version: u64,
    /// See `KeyPackageEntry::expiry`.
    pub expiry: u64,
    /// See `KeyPackageEntry::last_resort`.
    pub last_resort: bool,
}

impl View for KeyPackageEntry {
    type V = EntryView;

    open spec fn view(&self) -> EntryView {
        EntryView {
            key_package: self.key_package@,
            capability_version: self.capability_version,
            expiry: self.expiry,
            last_resort: self.last_resort,
        }
    }
}

impl KeyPackageEntry {
    /// An entry from its parts.
    pub fn new(
        key_package: KeyPackage,
        capability_version: u64,
        expiry: u64,
        last_resort: bool,
    ) -> (r: Self)
        ensures
            r@ == (EntryView {
                key_package: key_package@,
                capability_version,
                expiry,
                last_resort,
            }),
    {
        KeyPackageEntry { key_package, capability_version, expiry, last_resort }
    }

    /// The suite of the key package.
    pub fn ciphersuite(&self) -> (r: Ciphersuite)
        ensures
            r == self@.key_package.ciphersuite,
    {
        self.key_package.ciphersuite()
    }
}

impl Clone for KeyPackageEntry {
    fn clone(&self) -> (r: Self)
        ensures
            r@ == self@,
    {
        KeyPackageEntry {
            key_package: self.key_package.clone(),
            capability_version: self.capability_version,
            expiry: self.expiry,
            last_resort: self.last_resort,
        }
    }
}

/// The key packages of all devices.
#[derive(Debug)]
pub struct KeyPackageService {
    slots: AssocMap<SlotKey, KeyPackageEntry>,
    last_resort: AssocMap<SlotKey, KeyPackageEntry>,
}

/// The contents of a `KeyPackageService`.
#[verifier::ext_equal]
pub struct ServiceView {
    /// The ordinary key packages.
    pub slots: Map<Slot, EntryView>,
    /// The last-resort ones.
    pub last_resort: Map<Slot, EntryView>,
}

/// The entries of a map as views.
pub open spec fn entry_views(m: Map<Slot, KeyPackageEntry>) -> Map<Slot, EntryView> {
    m.map_values(|e: KeyPackageEntry| e@)
}

impl View for KeyPackageService {
    type V = ServiceView;

    closed spec fn view(&self) -> ServiceView {
        ServiceView {
            slots: entry_views(self.slots@),
            last_resort: entry_views(self.last_resort@),
        }
    }
}

/// Those of `places` that belong to a device.
pub open spec fn places_of(places: Set<Slot>, user_id: Seq<u8>, device_id: Seq<u8>) -> Set<Slot> {
    places.filter(|s: Slot| s.user_id == user_id && s.device_id == device_id)
}

/// How many key packages a device has.
pub open spec fn device_count(s: ServiceView, user_id: Seq<u8>, device_id: Seq<u8>) -> nat {
    places_of(s.slots.dom(), user_id, device_id).len() + places_of(
        s.last_resort.dom(),
        user_id,
        device_id,
    ).len()
}

/// What becomes of a publication, and of the service.
pub open spec fn publish_outcome(
    s: ServiceView,
    user_id: Seq<u8>,
    device_id: Seq<u8>,
    entry: EntryView,
) -> (ServiceView, Option<ServiceErrorView>) {
    let ciphersuite = entry.key_package.ciphersuite;
    let slot = Slot { user_id, device_id, ciphersuite };
    let taken = if entry.last_resort {
        s.last_resort.contains_key(slot)
    } else {
        s.slots.contains_key(slot)
    };
    if device_count(s, user_id, device_id) >= MAX_KEY_PACKAGES_PER_DEVICE {
        (
            s,
            Some(
                ServiceErrorView::PerDeviceCapExceeded {
                    user_id,
                    device_id,
                    cap: MAX_KEY_PACKAGES_PER_DEVICE,
                },
            ),
        )
    } else if taken {
        (s, Some(ServiceErrorView::DuplicateEntry { user_id, device_id, ciphersuite }))
    } else if entry.last_resort {
        (ServiceView { last_resort: s.last_resort.insert(slot, entry), ..s }, None)
    } else {
        (ServiceView { slots: s.slots.insert(slot, entry), ..s }, None)
    }
}

/// What a fetch gives, and what becomes of the service.
pub open spec fn fetch_outcome(s: ServiceView, slot: Slot) -> (ServiceView, Option<EntryView>) {
    if s.slots.contains_key(slot) {
        (ServiceView { slots: s.slots.remove(slot), ..s }, Some(s.slots[slot]))
    } else if s.last_resort.contains_key(slot) {
        (s, Some(s.last_resort[slot]))
    } else {
        (s, None)
    }
}

/// Those entries that have not expired before `timestamp`.
pub open spec fn unexpired(m: Map<Slot, EntryView>, timestamp: u64) -> Map<Slot, EntryView> {
    m.restrict(m.dom().filter(|s: Slot| m[s].expiry >= timestamp))
}

/// The view of an optional entry.
pub open spec fn opt_entry(e: Option<KeyPackageEntry>) -> Option<EntryView> {
    match e {
        Some(e) => Some(e@),
        None => None,
    }
}

impl KeyPackageService {
    /// A service without key packages.
    pub fn new() -> (r: Self)
        ensures
            r@ == (ServiceView { slots: Map::empty(), last_resort: Map::empty() }),
    {
        let r = KeyPackageService { slots: AssocMap::new(), last_resort: AssocMap::new() };
        assert(r@.slots =~= Map::empty());
        assert(r@.last_resort =~= Map::empty());
        r
    }

    /// Takes a key package of a device, if the device may have another and its
    /// place is free.
    pub fn publish(&mut self, user_id: Vec<u8>, device_id: Vec<u8>, entry: KeyPackageEntry) -> (r:
        Result<(), ServiceError>)
        ensures
            ({
                let (after, refusal) = publish_outcome(
                    old(self)@,
                    user_id@,
                    device_id@,
                    entry@,
                );
                &&& final(self)@ == after
                &&& match (r, refusal) {
                    (Ok(_), None) => true,
                    (Err(e), Some(f)) => e@ == f,
                    _ => false,
                }
            }),
    {
        let cs = entry.ciphersuite();
        let key = SlotKey::from_slices(user_id.as_slice(), device_id.as_slice(), cs);
        assert(self@.slots.dom() =~= self.slots@.dom());
        assert(self@.last_resort.dom() =~= self.last_resort@.dom());
        if self.at_cap(user_id.as_slice(), device_id.as_slice()) {
            return Err(
                ServiceError::PerDeviceCapExceeded {
                    user_id,
                    device_id,
                    cap: MAX_KEY_PACKAGES_PER_DEVICE,
                },
            );
        }
        let ghost slot = key@;
        if entry.last_resort {
            if self.last_resort.contains_key(&key) {
                return Err(ServiceError::DuplicateEntry { user_id, device_id, ciphersuite: cs });
            }
            self.last_resort.insert(key, entry);
            assert(self@.last_resort =~= old(self)@.last_resort.insert(slot, entry@));
        } else {
            if self.slots.contains_key(&key) {
                return Err(ServiceError::DuplicateEntry { user_id, device_id, ciphersuite: cs });
            }
            self.slots.insert(key, entry);
            assert(self@.slots =~= old(self)@.slots.insert(slot, entry@));
        }
        Ok(())
    }

    /// Hands out a key package. An ordinary one is gone then, a last-resort one is
    /// not.
    pub fn fetch(&mut self, user_id: &[u8], device_id: &[u8], ciphersuite: Ciphersuite) -> (r:
        Option<KeyPackageEntry>)
        ensures
            (final(self)@, opt_entry(r)) == fetch_outcome(
                old(self)@,
                Slot { user_id: user_id@, device_id: device_id@, ciphersuite },
            ),
    {
        let key = SlotKey::from_slices(user_id, device_id, ciphersuite);
        let ghost slot = key@;
        if let Some(entry) = self.slots.remove(&key) {
            assert(self@.slots =~= old(self)@.slots.remove(slot));
            return Some(entry);
        }
        match self.last_resort.get(&key) {
            Some(entry) => Some(entry.clone()),
            None => None,
        }
    }

    /// The last-resort key package of a device.
    pub fn fetch_last_resort(
        &self,
        user_id: &[u8],
        device_id: &[u8],
        ciphersuite: Ciphersuite,
    ) -> (r: Option<&KeyPackageEntry>)
        ensures
            ({
                let slot = Slot { user_id: user_id@, device_id: device_id@, ciphersuite };
                match r {
                    Some(e) => self@.last_resort.contains_key(slot) && self@.last_resort[slot]
                        == e@,
                    None => !self@.last_resort.contains_key(slot),
                }
            }),
    {
        self.last_resort.get(&SlotKey::from_slices(user_id, device_id, ciphersuite))
    }

    /// How many key packages a device has.
    pub fn count_for_device(&self, user_id: &[u8], device_id: &[u8]) -> (r: usize)
        requires
            device_count(self@, user_id@, device_id@) <= usize::MAX,
        ensures
            r == device_count(self@, user_id@, device_id@),
    {
        assert(self@.slots.dom() =~= self.slots@.dom());
        assert(self@.last_resort.dom() =~= self.last_resort@.dom());
        Self::count_in(&self.slots, user_id, device_id) + Self::count_in(
            &self.last_resort,
            user_id,
            device_id,
        )
    }

    /// Whether a device has as many key packages as it may have.
    fn at_cap(&self, user_id: &[u8], device_id: &[u8]) -> (r: bool)
        ensures
            r == (device_count(self@, user_id@, device_id@) >= MAX_KEY_PACKAGES_PER_DEVICE),
    {
        assert(self@.slots.dom() =~= self.slots@.dom());
        assert(self@.last_resort.dom() =~= self.last_resort@.dom());
        let a: u128 = Self::count_in(&self.slots, user_id, device_id) as u128;
        let b: u128 = Self::count_in(&self.last_resort, user_id, device_id) as u128;
        a + b >= MAX_KEY_PACKAGES_PER_DEVICE as u128
    }

    /// How many entries of a map belong to a device.
    fn count_in(map: &AssocMap<SlotKey, KeyPackageEntry>, user_id: &[u8], device_id: &[u8]) -> (r:
        usize)
        ensures
            r == places_of(map@.dom(), user_id@, device_id@).len(),
    {
        let total: usize = map.len();
        let ghost listed = map.listed();
        let ghost mut seen: Set<Slot> = Set::empty();
        let mut count: usize = 0;
        let mut i: usize = 0;
        while i < total
            invariant
                i <= total,
                total == listed.len(),
                listed == map.listed(),
                distinct_keys(listed),
                map@ == entry_map(listed),
                count <= i,
                seen.finite(),
                seen.len() == count,
                forall|s: Slot| #[trigger]
                    seen.contains(s) <==> s.user_id == user_id@ && s.device_id == device_id@
                        && exists|j: int| 0 <= j < i && #[trigger] listed[j].0@ == s,
            decreases total - i,
        {
            let entry = map.entry_at(i);
            let ghost slot = listed[i as int].0@;
            let ghost before = seen;
            if bytes_equal(entry.0.user_id.as_slice(), user_id) && bytes_equal(
                entry.0.device_id.as_slice(),
                device_id,
            ) {
                count += 1;
                proof {
                    assert(!before.contains(slot)) by {
                        if before.contains(slot) {
                            let j = choose|j: int| 0 <= j < i && #[trigger] listed[j].0@ == slot;
                            assert(listed[j].0.model() == listed[i as int].0.model());
                        }
                    }
                    seen = before.insert(slot);
                }
            }
            proof {
                assert forall|s: Slot| #[trigger]
                    seen.contains(s) <==> s.user_id == user_id@ && s.device_id == device_id@
                        && exists|j: int| 0 <= j < i + 1 && #[trigger] listed[j].0@ == s by {
                    if s.user_id == user_id@ && s.device_id == device_id@ && exists|j: int|
                        0 <= j < i + 1 && #[trigger] listed[j].0@ == s {
                        let j = choose|j: int| 0 <= j < i + 1 && #[trigger] listed[j].0@ == s;
                        if j < i {
                            assert(before.contains(s));
                        }
                    }
                }
            }
            i += 1;
        }
        proof {
            let places = places_of(map@.dom(), user_id@, device_id@);
            assert forall|s: Slot| places.contains(s) <==> seen.contains(s) by {
                if seen.contains(s) {
                    let j = choose|j: int| 0 <= j < total && #[trigger] listed[j].0@ == s;
                    lemma_entry_in_map(listed, j);
                }
                if places.contains(s) {
                    let j = choose|j: int|
                        0 <= j < listed.len() && #[trigger] listed[j].0.model() == s;
                    assert(listed[j].0@ == s);
                }
            }
            assert(places =~= seen);
        }
        count
    }

    /// Forgets the key packages that expired before `timestamp`, and returns how
    /// many those were.
    pub fn expire_before(&mut self, timestamp: u64) -> (r: usize)
        requires
            old(self)@.slots.dom().len() + old(self)@.last_resort.dom().len() <= usize::MAX,
        ensures
            final(self)@ == (ServiceView {
                slots: unexpired(old(self)@.slots, timestamp),
                last_resort: unexpired(old(self)@.last_resort, timestamp),
            }),
            r == (old(self)@.slots.dom().len() - final(self)@.slots.dom().len()) + (old(self)@.last_resort.dom().len() - final(self)@.last_resort.dom().len()),
    {
        let removed_std: usize = Self::expire_in(&mut self.slots, timestamp);
        let removed_lr: usize = Self::expire_in(&mut self.last_resort, timestamp);
        assert(old(self)@.slots.dom() =~= old(self).slots@.dom());
        assert(old(self)@.last_resort.dom() =~= old(self).last_resort@.dom());
        assert(self@.slots.dom() =~= self.slots@.dom());
        assert(self@.last_resort.dom() =~= self.last_resort@.dom());
        removed_std + removed_lr
    }

    /// Forgets the entries of a map that expired before `timestamp`.
    fn expire_in(map: &mut AssocMap<SlotKey, KeyPackageEntry>, timestamp: u64) -> (r: usize)
        ensures
            entry_views(final(map)@) == unexpired(entry_views(old(map)@), timestamp),
            final(map)@.dom().len() <= old(map)@.dom().len(),
            r == old(map)@.dom().len() - final(map)@.dom().len(),
    {
        let before: usize = map.len();
        let keep = |e: &KeyPackageEntry| -> (r: bool)
            ensures
                r == (e.expiry >= timestamp),
            { e.expiry >= timestamp };
        map.retain(keep);
        let after: usize = map.len();
        proof {
            let was = old(map)@;
            let is = map@;
            assert(is.dom().subset_of(was.dom())) by {
                assert forall|s: Slot| is.dom().contains(s) implies was.dom().contains(s) by {
                    assert(is.contains_key(s));
                }
            }
            vstd::set_lib::lemma_len_subset(is.dom(), was.dom());
            let kept = unexpired(entry_views(was), timestamp);
            assert forall|s: Slot| entry_views(is).contains_key(s) <==> kept.contains_key(s) by {
                if is.contains_key(s) {
                    assert(was[s].expiry >= timestamp);
                } else if was.contains_key(s) {
                    assert(was[s].expiry < timestamp);
                }
            }
            assert(entry_views(is) =~= kept) by {
                assert(entry_views(is).dom() =~= kept.dom());
                assert forall|s: Slot| #[trigger] entry_views(is).dom().contains(s) implies entry_views(
                    is,
                )[s] == kept[s] by {
                    assert(is.contains_key(s));
                }
            }
        }
        before - after
    }

    /// How many key packages there are.
    pub fn total_len(&self) -> (r: usize)
        requires
            self@.slots.dom().len() + self@.last_resort.dom().len() <= usize::MAX,
        ensures
            r == self@.slots.dom().len() + self@.last_resort.dom().len(),
    {
        assert(self@.slots.dom() =~= self.slots@.dom());
        assert(self@.last_resort.dom() =~= self.last_resort@.dom());
        self.slots.len() + self.last_resort.len()
    }

    /// Whether there are no key packages.
    pub fn is_empty(&self) -> (r: bool)
        ensures
            r == (self@.slots.dom().len() == 0 && self@.last_resort.dom().len() == 0),
    {
        assert(self@.slots.dom() =~= self.slots@.dom());
        assert(self@.last_resort.dom() =~= self.last_resort@.dom());
        self.slots.len() == 0 && self.last_resort.len() == 0
    }
}

impl Default for KeyPackageService {
    fn default() -> (r: Self)
        ensures
            r@ == (ServiceView { slots: Map::empty(), last_resort: Map::empty() }),
    {
        KeyPackageService::new()
    }
}

/// What is published is what the next fetch gives, unless an ordinary key package
/// has the place before a last-resort one.
pub proof fn published_is_fetched(
    s: ServiceView,
    user_id: Seq<u8>,
    device_id: Seq<u8>,
    entry: EntryView,
)
    requires
        publish_outcome(s, user_id, device_id, entry).1 is None,
    ensures
        ({
            let slot = Slot { user_id, device_id, ciphersuite: entry.key_package.ciphersuite };
            let after = publish_outcome(s, user_id, device_id, entry).0;
            !entry.last_resort || !s.slots.contains_key(slot) ==> fetch_outcome(after, slot).1
                == Some(entry)
        }),
{
}

/// An ordinary key package is handed out once: the same fetch does not find it
/// again. It finds the last-resort one, if there is one, as often as it is made.
pub proof fn ordinary_key_packages_are_used_once(s: ServiceView, slot: Slot)
    ensures
        !fetch_outcome(s, slot).0.slots.contains_key(slot),
        fetch_outcome(s, slot).0.last_resort == s.last_resort,
        ({
            let again = fetch_outcome(fetch_outcome(s, slot).0, slot);
            &&& again.1 == (if s.last_resort.contains_key(slot) {
                Some(s.last_resort[slot])
            } else {
                None
            })
            &&& again.0 == fetch_outcome(s, slot).0
        }),
{
}

/// A fetch touches no other place.
pub proof fn fetches_touch_one_place(s: ServiceView, slot: Slot, other: Slot)
    requires
        other != slot,
    ensures
        fetch_outcome(s, slot).0.slots.contains_key(other) == s.slots.contains_key(other),
        s.slots.contains_key(other) ==> fetch_outcome(s, slot).0.slots[other] == s.slots[other],
{
}

/// A refused publication changes nothing, and an accepted one touches no other place.
pub proof fn publications_touch_one_place(
    s: ServiceView,
    user_id: Seq<u8>,
    device_id: Seq<u8>,
    entry: EntryView,
    other: Slot,
)
    requires
        other != (Slot { user_id, device_id, ciphersuite: entry.key_package.ciphersuite }),
    ensures
        ({
            let (after, refusal) = publish_outcome(s, user_id, device_id, entry);
            &&& refusal is Some ==> after == s
            &&& after.slots.contains_key(other) == s.slots.contains_key(other)
            &&& after.last_resort.contains_key(other) == s.last_resort.contains_key(other)
            &&& s.slots.contains_key(other) ==> after.slots[other] == s.slots[other]
            &&& s.last_resort.contains_key(other) ==> after.last_resort[other]
                == s.last_resort[other]
        }),
{
}

/// `true` if no device has more key packages than it may have, every entry is in
/// the place of its suite, and the last-resort ones are by themselves.
pub open spec fn service_wf(s: ServiceView) -> bool {
    &&& s.slots.dom().finite()
    &&& s.last_resort.dom().finite()
    &&& forall|u: Seq<u8>, d: Seq<u8>|
        #![trigger device_count(s, u, d)]
        device_count(s, u, d) <= MAX_KEY_PACKAGES_PER_DEVICE
    &&& forall|k: Slot| #[trigger]
        s.slots.contains_key(k) ==> s.slots[k].key_package.ciphersuite == k.ciphersuite
            && !s.slots[k].last_resort
    &&& forall|k: Slot| #[trigger]
        s.last_resort.contains_key(k) ==> s.last_resort[k].key_package.ciphersuite == k.ciphersuite
            && s.last_resort[k].last_resort
}

proof fn lemma_places_insert(places: Set<Slot>, slot: Slot, user_id: Seq<u8>, device_id: Seq<u8>)
    requires
        places.finite(),
    ensures
        places_of(places.insert(slot), user_id, device_id).len() <= places_of(
            places,
            user_id,
            device_id,
        ).len() + if slot.user_id == user_id && slot.device_id == device_id {
            1int
        } else {
            0
        },
{
    let a = places_of(places, user_id, device_id);
    let b = places_of(places.insert(slot), user_id, device_id);
    if slot.user_id == user_id && slot.device_id == device_id {
        assert(b =~= a.insert(slot));
    } else {
        assert(b =~= a);
    }
}

proof fn lemma_places_shrink(more: Set<Slot>, fewer: Set<Slot>, user_id: Seq<u8>, device_id: Seq<u8>)
    requires
        more.finite(),
        fewer.subset_of(more),
    ensures
        fewer.finite(),
        places_of(fewer, user_id, device_id).len() <= places_of(more, user_id, device_id).len(),
{
    vstd::set_lib::lemma_set_subset_finite(more, fewer);
    vstd::set_lib::lemma_len_subset(
        places_of(fewer, user_id, device_id),
        places_of(more, user_id, device_id),
    );
}

/// An empty service is well formed, and publishing, fetching and expiring keep it
/// so. In particular no device ever has more key packages than it may have.
pub proof fn service_stays_well_formed(
    s: ServiceView,
    user_id: Seq<u8>,
    device_id: Seq<u8>,
    entry: EntryView,
    slot: Slot,
    timestamp: u64,
)
    requires
        service_wf(s),
    ensures
        service_wf(ServiceView { slots: Map::empty(), last_resort: Map::empty() }),
        service_wf(publish_outcome(s, user_id, device_id, entry).0),
        service_wf(fetch_outcome(s, slot).0),
        service_wf(
            ServiceView {
                slots: unexpired(s.slots, timestamp),
                last_resort: unexpired(s.last_resort, timestamp),
            },
        ),
{
    let none = ServiceView { slots: Map::empty(), last_resort: Map::empty() };
    assert forall|u: Seq<u8>, d: Seq<u8>| #[trigger]
        device_count(none, u, d) <= MAX_KEY_PACKAGES_PER_DEVICE by {
        assert(places_of(none.slots.dom(), u, d) =~= Set::empty());
        assert(places_of(none.last_resort.dom(), u, d) =~= Set::empty());
    }
    let place = Slot { user_id, device_id, ciphersuite: entry.key_package.ciphersuite };
    let p = publish_outcome(s, user_id, device_id, entry).0;
    assert forall|u: Seq<u8>, d: Seq<u8>| #[trigger]
        device_count(p, u, d) <= MAX_KEY_PACKAGES_PER_DEVICE by {
        assert(device_count(s, u, d) <= MAX_KEY_PACKAGES_PER_DEVICE);
        lemma_places_insert(s.slots.dom(), place, u, d);
        lemma_places_insert(s.last_resort.dom(), place, u, d);
    }
    let f = fetch_outcome(s, slot).0;
    assert forall|u: Seq<u8>, d: Seq<u8>| #[trigger]
        device_count(f, u, d) <= MAX_KEY_PACKAGES_PER_DEVICE by {
        assert(device_count(s, u, d) <= MAX_KEY_PACKAGES_PER_DEVICE);
        lemma_places_shrink(s.slots.dom(), f.slots.dom(), u, d);
    }
    let e = ServiceView {
        slots: unexpired(s.slots, timestamp),
        last_resort: unexpired(s.last_resort, timestamp),
    };
    assert(e.slots.dom().subset_of(s.slots.dom()));
    assert(e.last_resort.dom().subset_of(s.last_resort.dom()));
    lemma_places_shrink(s.slots.dom(), e.slots.dom(), user_id, device_id);
    lemma_places_shrink(s.last_resort.dom(), e.last_resort.dom(), user_id, device_id);
    assert forall|u: Seq<u8>, d: Seq<u8>| #[trigger]
        device_count(e, u, d) <= MAX_KEY_PACKAGES_PER_DEVICE by {
        assert(device_count(s, u, d) <= MAX_KEY_PACKAGES_PER_DEVICE);
        lemma_places_shrink(s.slots.dom(), e.slots.dom(), u, d);
        lemma_places_shrink(s.last_resort.dom(), e.last_resort.dom(), u, d);
    }
}

/// The text of an error.
pub open spec fn service_error_text(e: ServiceErrorView) -> Seq<char> {
    match e {
        ServiceErrorView::PerDeviceCapExceeded { user_id, device_id, cap } => "device "@ + byte_list(
            user_id,
        ) + "/"@ + byte_list(device_id) + " would exceed per-device KP cap of "@ + decimal(
            cap as nat,
        ),
        ServiceErrorView::DuplicateEntry { user_id, device_id, ciphersuite } =>
            "duplicate KeyPackage for "@ + byte_list(user_id) + "/"@ + byte_list(device_id) + "/"@
            + ciphersuite_name(ciphersuite),
    }
}

impl ServiceError {
    /// The text of the error.
    pub fn message(&self) -> (r: String)
        ensures
            r@ == service_error_text(self@),
    {
        match self {
            ServiceError::PerDeviceCapExceeded { user_id, device_id, cap } => {
                let mut text: String = "device ".to_owned();
                push_byte_list(&mut text, user_id.as_slice());
                text.append("/");
                push_byte_list(&mut text, device_id.as_slice());
                text.append(" would exceed per-device KP cap of ");
                push_decimal(&mut text, *cap as u64);
                text
            },
            ServiceError::DuplicateEntry { user_id, device_id, ciphersuite } => {
                let mut text: String = "duplicate KeyPackage for ".to_owned();
                push_byte_list(&mut text, user_id.as_slice());
                text.append("/");
                push_byte_list(&mut text, device_id.as_slice());
                text.append("/");
                text.append(ciphersuite.name());
                text
            },
        }
    }
}

/// A key package is taken exactly when the device has fewer than sixteen and the place
/// for its suite, among the ordinary or the last-resort ones, is free. A full device is
/// refused as full, and every other refusal is for the place.
pub proof fn key_package_is_taken_iff(
    s: ServiceView,
    user_id: Seq<u8>,
    device_id: Seq<u8>,
    entry: EntryView,
)
    ensures
        ({
            let ciphersuite = entry.key_package.ciphersuite;
            let slot = Slot { user_id, device_id, ciphersuite };
            let room = device_count(s, user_id, device_id) < 16;
            let free = if entry.last_resort {
                !s.last_resort.contains_key(slot)
            } else {
                !s.slots.contains_key(slot)
            };
            let refusal = publish_outcome(s, user_id, device_id, entry).1;
            &&& refusal is None <==> room && free
            &&& refusal == Some(
                ServiceErrorView::PerDeviceCapExceeded { user_id, device_id, cap: 16 },
            ) <==> !room
            &&& refusal == Some(
                ServiceErrorView::DuplicateEntry { user_id, device_id, ciphersuite },
            ) <==> room && !free
        }),
{
}

/// A key package that is taken goes to the place for its suite: among the last-resort
/// ones if it is one, and among the ordinary ones otherwise. The other ones stay as they
/// are.
pub proof fn taken_key_package_has_its_place(
    s: ServiceView,
    user_id: Seq<u8>,
    device_id: Seq<u8>,
    entry: EntryView,
)
    requires
        publish_outcome(s, user_id, device_id, entry).1 is None,
    ensures
        ({
            let slot = Slot { user_id, device_id, ciphersuite: entry.key_package.ciphersuite };
            let after = publish_outcome(s, user_id, device_id, entry).0;
            if entry.last_resort {
                after.last_resort.contains_key(slot) && after.last_resort[slot] == entry
                    && after.slots == s.slots
            } else {
                after.slots.contains_key(slot) && after.slots[slot] == entry && after.last_resort
                    == s.last_resort
            }
        }),
{
}

/// A fetch gives the ordinary key package if there is one, else the last-resort one, and
/// nothing only where there is neither. It takes the ordinary one away and leaves all
/// last-resort ones.
pub proof fn fetch_prefers_the_ordinary_one(s: ServiceView, slot: Slot)
    ensures
        s.slots.contains_key(slot) ==> fetch_outcome(s, slot).1 == Some(s.slots[slot])
            && !fetch_outcome(s, slot).0.slots.contains_key(slot),
        !s.slots.contains_key(slot) ==> fetch_outcome(s, slot).0 == s,
        !s.slots.contains_key(slot) && s.last_resort.contains_key(slot) ==> fetch_outcome(
            s,
            slot,
        ).1 == Some(s.last_resort[slot]),
        fetch_outcome(s, slot).1 is None <==> !s.slots.contains_key(slot)
            && !s.last_resort.contains_key(slot),
        fetch_outcome(s, slot).0.last_resort == s.last_resort,
{
}

/// The number of a device's key packages grows by one with each that is taken, shrinks
/// by one with each ordinary one that is handed out, and has nothing to do with those of
/// other devices.
pub proof fn device_count_follows_publications_and_fetches(
    s: ServiceView,
    user_id: Seq<u8>,
    device_id: Seq<u8>,
    entry: EntryView,
    slot: Slot,
    user: Seq<u8>,
    device: Seq<u8>,
)
    requires
        s.slots.dom().finite(),
        s.last_resort.dom().finite(),
    ensures
        device_count(
            ServiceView { slots: Map::empty(), last_resort: Map::empty() },
            user,
            device,
        ) == 0,
        publish_outcome(s, user_id, device_id, entry).1 is None ==> device_count(
            publish_outcome(s, user_id, device_id, entry).0,
            user,
            device,
        ) == device_count(s, user, device) + if (user, device) == (user_id, device_id) {
            1int
        } else {
            0
        },
        device_count(fetch_outcome(s, slot).0, user, device) == device_count(s, user, device)
            - if s.slots.contains_key(slot) && (user, device) == (slot.user_id, slot.device_id) {
            1int
        } else {
            0
        },
{
    let none = ServiceView { slots: Map::empty(), last_resort: Map::empty() };
    assert(places_of(none.slots.dom(), user, device) =~= Set::empty());
    assert(places_of(none.last_resort.dom(), user, device) =~= Set::empty());
    let place = Slot { user_id, device_id, ciphersuite: entry.key_package.ciphersuite };
    let p = publish_outcome(s, user_id, device_id, entry).0;
    let slots = places_of(s.slots.dom(), user, device);
    let last = places_of(s.last_resort.dom(), user, device);
    if publish_outcome(s, user_id, device_id, entry).1 is None {
        if entry.last_resort {
            if (user, device) == (user_id, device_id) {
                assert(places_of(p.last_resort.dom(), user, device) =~= last.insert(place));
            } else {
                assert(places_of(p.last_resort.dom(), user, device) =~= last);
            }
        } else {
            if (user, device) == (user_id, device_id) {
                assert(places_of(p.slots.dom(), user, device) =~= slots.insert(place));
            } else {
                assert(places_of(p.slots.dom(), user, device) =~= slots);
            }
        }
    }
    let f = fetch_outcome(s, slot).0;
    if s.slots.contains_key(slot) {
        if (user, device) == (slot.user_id, slot.device_id) {
            assert(places_of(f.slots.dom(), user, device) =~= slots.remove(slot));
            assert(slots.contains(slot));
        } else {
            assert(places_of(f.slots.dom(), user, device) =~= slots);
        }
    }
}

/// Of the key packages exactly those stay that expire at `timestamp` or later, and they
/// stay as they are.
pub proof fn unexpired_ones_stay(m: Map<Slot, EntryView>, timestamp: u64, slot: Slot)
    ensures
        unexpired(m, timestamp).contains_key(slot) <==> m.contains_key(slot) && m[slot].expiry
            >= timestamp,
        unexpired(m, timestamp).contains_key(slot) ==> unexpired(m, timestamp)[slot] == m[slot],
{
}

/// Expiring twice is expiring at the later time.
pub proof fn expiring_twice_is_expiring_later(m: Map<Slot, EntryView>, a: u64, b: u64)
    ensures
        unexpired(unexpired(m, a), b) == unexpired(m, if a >= b {
            a
        } else {
            b
        }),
{
    let later = if a >= b {
        a
    } else {
        b
    };
    assert forall|s: Slot| #[trigger]
        unexpired(unexpired(m, a), b).contains_key(s) <==> unexpired(m, later).contains_key(s) by {
        unexpired_ones_stay(m, a, s);
        unexpired_ones_stay(unexpired(m, a), b, s);
        unexpired_ones_stay(m, later, s);
    }
    assert forall|s: Slot| #[trigger] unexpired(unexpired(m, a), b).contains_key(s) implies unexpired(
        unexpired(m, a),
        b,
    )[s] == unexpired(m, later)[s] by {
        unexpired_ones_stay(m, a, s);
        unexpired_ones_stay(unexpired(m, a), b, s);
        unexpired_ones_stay(m, later, s);
    }
    assert(unexpired(unexpired(m, a), b) =~= unexpired(m, later));
}

} // verus!
