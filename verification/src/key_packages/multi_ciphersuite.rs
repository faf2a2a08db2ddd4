//! One key package for each suite of a device.
use crate::assoc::{distinct_keys, entry_map, lemma_entry_in_map, AssocMap, MapKey};
use crate::ciphersuite::security_mode::{
    suite_mode, suite_mode_shows_in_codepoint_and_signature, SecurityMode,
};
use crate::credentials::device_capability::{
    list_contains, DeviceCapability, DeviceCapabilityView,
};
use crate::mls::{KeyPackage, KeyPackageBundle};
use crate::text::{decimal, push_decimal};
use crate::types::{ciphersuite_codepoint, ciphersuite_name, Ciphersuite};
use vstd::prelude::*;
use vstd::string::*;

verus! {

/// How many key packages a device may have.
pub const MAX_KEY_PACKAGES_PER_DEVICE: usize = 16;

/// The key packages of a device, by suite.
#[derive(Debug)]
pub struct MultiCiphersuiteKeyPackages {
    packages: AssocMap<Ciphersuite, KeyPackageBundle>,
}

impl View for MultiCiphersuiteKeyPackages {
    type V = Map<Ciphersuite, KeyPackageBundle>;

    closed spec fn view(&self) -> Map<Ciphersuite, KeyPackageBundle> {
        self.packages@
    }
}

/// Why no key packages are made.
#[derive(Debug, PartialEq, Eq)]
pub enum MultiCiphersuiteError {
    /// The device lists too many suites.
    TooManyCiphersuites {
        /// How many it lists.
        requested: usize,
        /// How many it may list.
        cap: usize,
    },
    /// The device lists no suite.
    NoCiphersuites,
    /// A key package could not be built.
    KeyPackageError {
        /// The suite.
        cs: Ciphersuite,
        /// What went wrong.
        source: String,
    },
}

/// The suites of `list`, each once, in the order in which they first occur.
pub open spec fn unique(list: Seq<Ciphersuite>) -> Seq<Ciphersuite>
    decreases list.len(),
{
    if list.len() == 0 {
        Seq::empty()
    } else {
        let before = unique(list.drop_last());
        if before.contains(list.last()) {
            before
        } else {
            before.push(list.last())
        }
    }
}

/// The suites of a device: the classical ones, then the post-quantum ones, each
/// once.
pub open spec fn device_suites(c: DeviceCapabilityView) -> Seq<Ciphersuite> {
    unique(c.classical_ciphersuites + c.pq_ciphersuites)
}

/// `unique` keeps every suite, and each only once.
pub proof fn unique_keeps_each_suite_once(list: Seq<Ciphersuite>)
    ensures
        unique(list).no_duplicates(),
        unique(list).len() <= list.len(),
        forall|cs: Ciphersuite| #[trigger] unique(list).contains(cs) <==> list.contains(cs),
    decreases list.len(),
{
    if list.len() > 0 {
        let init = list.drop_last();
        let before = unique(init);
        let last = list.last();
        unique_keeps_each_suite_once(init);
        assert forall|cs: Ciphersuite| #[trigger] unique(list).contains(cs) <==> list.contains(
            cs,
        ) by {
            if list.contains(cs) {
                let i = choose|i: int| 0 <= i < list.len() && list[i] == cs;
                if i < init.len() {
                    assert(init[i] == cs);
                    assert(init.contains(cs));
                    assert(before.contains(cs));
                    let j = choose|j: int| 0 <= j < before.len() && before[j] == cs;
                    assert(unique(list)[j] == cs);
                } else if !before.contains(last) {
                    assert(unique(list)[before.len() as int] == cs);
                }
            }
            if unique(list).contains(cs) {
                let j = choose|j: int| 0 <= j < unique(list).len() && unique(list)[j] == cs;
                if j < before.len() {
                    assert(before[j] == cs);
                    assert(before.contains(cs));
                    assert(init.contains(cs));
                    let i = choose|i: int| 0 <= i < init.len() && init[i] == cs;
                    assert(list[i] == cs);
                } else {
                    assert(list[list.len() - 1] == cs);
                }
            }
        }
    }
}

/// The suites of a device, each once.
pub fn unique_ciphersuites(capability: &DeviceCapability) -> (r: Vec<Ciphersuite>)
    ensures
        r@ == device_suites(capability@),
{
    let mut seen: Vec<Ciphersuite> = Vec::new();
    let ghost all = capability@.classical_ciphersuites + capability@.pq_ciphersuites;
    let mut i: usize = 0;
    assert(all.take(0) =~= Seq::empty());
    while i < capability.classical_ciphersuites.len()
        invariant
            i <= capability.classical_ciphersuites@.len(),
            all == capability.classical_ciphersuites@ + capability.pq_ciphersuites@,
            seen@ == unique(all.take(i as int)),
        decreases capability.classical_ciphersuites@.len() - i,
    {
        let cs = capability.classical_ciphersuites[i];
        assert(all.take(i + 1).drop_last() =~= all.take(i as int));
        assert(all.take(i + 1).last() == cs);
        if !list_contains(seen.as_slice(), cs) {
            seen.push(cs);
        }
        i += 1;
    }
    let ghost n = capability.classical_ciphersuites@.len() as int;
    let mut k: usize = 0;
    while k < capability.pq_ciphersuites.len()
        invariant
            k <= capability.pq_ciphersuites@.len(),
            n == capability.classical_ciphersuites@.len(),
            all == capability.classical_ciphersuites@ + capability.pq_ciphersuites@,
            seen@ == unique(all.take(n + k)),
        decreases capability.pq_ciphersuites@.len() - k,
    {
        let cs = capability.pq_ciphersuites[k];
        assert(all.take(n + k + 1).drop_last() =~= all.take(n + k));
        assert(all.take(n + k + 1).last() == cs);
        if !list_contains(seen.as_slice(), cs) {
            seen.push(cs);
        }
        k += 1;
    }
    assert(all.take(n + capability.pq_ciphersuites@.len()) =~= all);
    seen
}

/// `true` for the suites that provide no more than `Classical`.
pub open spec fn is_classical(cs: Ciphersuite) -> bool {
    suite_mode(cs) == SecurityMode::Classical
}

/// `true` if `suites` are those suites of `packages` that are classical, or those
/// that are not, each once, and `found` are their key packages.
pub open spec fn are_packages_for(
    packages: Map<Ciphersuite, KeyPackageBundle>,
    classical: bool,
    suites: Seq<Ciphersuite>,
    found: Seq<&KeyPackageBundle>,
) -> bool {
    &&& suites.no_duplicates()
    &&& forall|cs: Ciphersuite| #[trigger]
        suites.contains(cs) <==> packages.contains_key(cs) && is_classical(cs) == classical
    &&& found.len() == suites.len()
    &&& forall|i: int| 0 <= i < found.len() ==> *(#[trigger] found[i]) == packages[suites[i]]
}

/// `true` if making the key packages for `suites` with `build` gives `packages`.
pub open spec fn all_built<F: Fn(Ciphersuite) -> Result<KeyPackageBundle, String>>(
    build: F,
    suites: Seq<Ciphersuite>,
    packages: Map<Ciphersuite, KeyPackageBundle>,
) -> bool {
    &&& forall|cs: Ciphersuite| #[trigger] packages.contains_key(cs) <==> suites.contains(cs)
    &&& forall|cs: Ciphersuite| #[trigger]
        packages.contains_key(cs) ==> call_ensures(build, (cs,), Ok(packages[cs]))
}

impl MultiCiphersuiteKeyPackages {
    /// Makes a key package for each suite of a device. `build` makes one.
    pub fn generate_for_capability<F: Fn(Ciphersuite) -> Result<KeyPackageBundle, String>>(
        capability: &DeviceCapability,
        build: F,
    ) -> (r: Result<Self, MultiCiphersuiteError>)
        requires
            forall|cs: Ciphersuite|
                device_suites(capability@).len() <= MAX_KEY_PACKAGES_PER_DEVICE && device_suites(capability@).contains(cs)
                    ==> #[trigger] call_requires(build, (cs,)),
        ensures
            generated(
                device_suites(capability@),
                MAX_KEY_PACKAGES_PER_DEVICE,
                build,
                r,
            ),
    {
        Self::generate_for_capability_with_cap(capability, build, MAX_KEY_PACKAGES_PER_DEVICE)
    }

    /// Makes a key package for each suite of a device that lists at most `cap` of
    /// them. The first one that cannot be built ends it.
    pub fn generate_for_capability_with_cap<
        F: Fn(Ciphersuite) -> Result<KeyPackageBundle, String>,
    >(capability: &DeviceCapability, build: F, cap: usize) -> (r: Result<
        Self,
        MultiCiphersuiteError,
    >)
        requires
            forall|cs: Ciphersuite|
                device_suites(capability@).len() <= cap && device_suites(capability@).contains(cs)
                    ==> #[trigger] call_requires(build, (cs,)),
        ensures
            generated(device_suites(capability@), cap, build, r),
    {
        let suites = unique_ciphersuites(capability);
        if suites.len() == 0 {
            return Err(MultiCiphersuiteError::NoCiphersuites);
        }
        if suites.len() > cap {
            return Err(
                MultiCiphersuiteError::TooManyCiphersuites { requested: suites.len(), cap },
            );
        }
        let mut packages: AssocMap<Ciphersuite, KeyPackageBundle> = AssocMap::new();
        let mut i: usize = 0;
        assert(suites@.take(0) =~= Seq::<Ciphersuite>::empty());
        while i < suites.len()
            invariant
                i <= suites@.len(),
                suites@ == device_suites(capability@),
                0 < suites@.len() <= cap,
                forall|cs: Ciphersuite|
                    suites@.contains(cs) ==> #[trigger] call_requires(build, (cs,)),
                all_built(build, suites@.take(i as int), packages@),
            decreases suites@.len() - i,
        {
            let cs = suites[i];
            assert(suites@.contains(cs));
            let ghost before = packages@;
            let ghost done = suites@.take(i as int);
            match build(cs) {
                Err(source) => {
                    proof {
                        assert forall|j: int| 0 <= j < i implies can_build(
                            build,
                            #[trigger] suites@[j],
                        ) by {
                            assert(done[j] == suites@[j]);
                            assert(done.contains(suites@[j]));
                            assert(before.contains_key(suites@[j]));
                            assert(call_ensures(build, (suites@[j],), Ok(before[suites@[j]])));
                        }
                        assert(built_up_to(build, suites@, i as int, source));
                    }
                    assert(fails_for(build, suites@, cs, source));
                    return Err(MultiCiphersuiteError::KeyPackageError { cs, source });
                },
                Ok(bundle) => {
                    packages.insert(cs, bundle);
                    proof {
                        let next = suites@.take(i + 1);
                        assert(next =~= done.push(cs));
                        assert forall|c: Ciphersuite| #[trigger]
                            packages@.contains_key(c) <==> next.contains(c) by {
                            if next.contains(c) {
                                let j = choose|j: int| 0 <= j < next.len() && next[j] == c;
                                if j < done.len() {
                                    assert(done[j] == c);
                                    assert(done.contains(c));
                                    assert(before.contains_key(c));
                                }
                            }
                            if packages@.contains_key(c) && c != cs {
                                assert(before.contains_key(c));
                                let j = choose|j: int| 0 <= j < done.len() && done[j] == c;
                                assert(next[j] == c);
                            }
                            assert(next[done.len() as int] == cs);
                        }
                        assert forall|c: Ciphersuite| #[trigger]
                            packages@.contains_key(c) implies call_ensures(
                            build,
                            (c,),
                            Ok(packages@[c]),
                        ) by {
                            if c != cs {
                                assert(before.contains_key(c));
                            }
                        }
                    }
                },
            }
            i += 1;
        }
        assert(suites@.take(suites@.len() as int) =~= suites@);
        Ok(MultiCiphersuiteKeyPackages { packages })
    }

    /// The key package and private keys for a suite.
    pub fn get_for_ciphersuite(&self, cs: Ciphersuite) -> (r: Option<&KeyPackageBundle>)
        ensures
            match r {
                Some(b) => self@.contains_key(cs) && *b == self@[cs],
                None => !self@.contains_key(cs),
            },
    {
        self.packages.get(&cs)
    }

    /// All suites that there is a key package for, in no particular order.
    pub fn all_ciphersuites(&self) -> (r: Vec<Ciphersuite>)
        ensures
            r@.no_duplicates(),
            r@.to_set() == self@.dom(),
    {
        let mut suites: Vec<Ciphersuite> = Vec::new();
        let count: usize = self.packages.len();
        let ghost listed = self.packages.listed();
        let mut i: usize = 0;
        while i < count
            invariant
                i <= count,
                count == listed.len(),
                listed == self.packages.listed(),
                distinct_keys(listed),
                self@ == entry_map(listed),
                suites@.len() == i,
                forall|j: int| 0 <= j < i ==> #[trigger] suites@[j] == listed[j].0,
            decreases count - i,
        {
            suites.push(self.packages.entry_at(i).0);
            i += 1;
        }
        proof {
            assert(suites@.no_duplicates()) by {
                assert forall|a: int, b: int|
                    0 <= a < suites@.len() && 0 <= b < suites@.len() && a != b implies suites@[a]
                    != suites@[b] by {
                    assert(listed[a].0.model() == suites@[a]);
                    assert(listed[b].0.model() == suites@[b]);
                }
            }
            assert forall|cs: Ciphersuite| suites@.to_set().contains(
                cs,
            ) <==> self@.dom().contains(cs) by {
                if suites@.contains(cs) {
                    let j = choose|j: int| 0 <= j < suites@.len() && suites@[j] == cs;
                    lemma_entry_in_map(listed, j);
                    assert(listed[j].0.model() == cs);
                }
                if self@.dom().contains(cs) {
                    let j = choose|j: int|
                        0 <= j < listed.len() && #[trigger] listed[j].0.model() == cs;
                    assert(suites@[j] == cs);
                }
            }
            assert(suites@.to_set() =~= self@.dom());
        }
        suites
    }

    /// The key package for a suite.
    pub fn key_package(&self, cs: Ciphersuite) -> (r: Option<&KeyPackage>)
        ensures
            match r {
                Some(kp) => self@.contains_key(cs) && *kp == self@[cs].key_package,
                None => !self@.contains_key(cs),
            },
    {
        match self.packages.get(&cs) {
            Some(bundle) => Some(bundle.key_package()),
            None => None,
        }
    }

    /// The key packages for classical suites, in no particular order.
    pub fn classical_packages(&self) -> (r: Vec<&KeyPackageBundle>)
        ensures
            exists|suites: Seq<Ciphersuite>| are_packages_for(self@, true, suites, r@),
    {
        self.packages_where(true)
    }

    /// The key packages for post-quantum suites, in no particular order.
    pub fn pq_packages(&self) -> (r: Vec<&KeyPackageBundle>)
        ensures
            exists|suites: Seq<Ciphersuite>| are_packages_for(self@, false, suites, r@),
    {
        self.packages_where(false)
    }

    /// The key packages for suites that are classical, or that are not.
    fn packages_where(&self, classical: bool) -> (r: Vec<&KeyPackageBundle>)
        ensures
            exists|suites: Seq<Ciphersuite>| are_packages_for(self@, classical, suites, r@),
    {
        let mut found: Vec<&KeyPackageBundle> = Vec::new();
        let ghost mut suites: Seq<Ciphersuite> = Seq::empty();
        let count: usize = self.packages.len();
        let ghost listed = self.packages.listed();
        let mut i: usize = 0;
        while i < count
            invariant
                i <= count,
                count == listed.len(),
                listed == self.packages.listed(),
                distinct_keys(listed),
                self@ == entry_map(listed),
                found@.len() == suites.len(),
                suites.no_duplicates(),
                forall|cs: Ciphersuite| #[trigger]
                    suites.contains(cs) <==> is_classical(cs) == classical && exists|j: int|
                        0 <= j < i && #[trigger] listed[j].0 == cs,
                forall|k: int|
                    0 <= k < found@.len() ==> *(#[trigger] found@[k]) == self@[suites[k]],
            decreases count - i,
        {
            let entry = self.packages.entry_at(i);
            let ghost cs = listed[i as int].0;
            let ghost before = suites;
            let ghost found_before = found@;
            proof {
                lemma_entry_in_map(listed, i as int);
                assert(cs.model() == cs);
            }
            let weak = SecurityMode::from_ciphersuite(entry.0) == SecurityMode::Classical;
            if weak == classical {
                found.push(&entry.1);
                proof {
                    assert(!before.contains(cs)) by {
                        if before.contains(cs) {
                            let j = choose|j: int| 0 <= j < i && #[trigger] listed[j].0 == cs;
                            assert(listed[j].0.model() == listed[i as int].0.model());
                        }
                    }
                    suites = before.push(cs);
                    assert forall|k: int| 0 <= k < found@.len() implies *(#[trigger] found@[k])
                        == self@[suites[k]] by {
                        if k < before.len() {
                            assert(found@[k] == found_before[k]);
                            assert(suites[k] == before[k]);
                        }
                    }
                }
            }
            proof {
                assert forall|c: Ciphersuite| #[trigger]
                    suites.contains(c) <==> is_classical(c) == classical && exists|j: int|
                        0 <= j < i + 1 && #[trigger] listed[j].0 == c by {
                    if suites.contains(c) {
                        let k = choose|k: int| 0 <= k < suites.len() && suites[k] == c;
                        if k < before.len() {
                            assert(before[k] == c);
                            assert(before.contains(c));
                        }
                    }
                    if is_classical(c) == classical && exists|j: int| 0 <= j < i + 1 && #[trigger] listed[j].0 == c {
                        let j = choose|j: int| 0 <= j < i + 1 && #[trigger] listed[j].0 == c;
                        if j < i {
                            assert(before.contains(c));
                            let k = choose|k: int| 0 <= k < before.len() && before[k] == c;
                            assert(suites[k] == c);
                        } else {
                            assert(suites[before.len() as int] == c);
                        }
                    }
                }
            }
            i += 1;
        }
        proof {
            assert forall|cs: Ciphersuite| #[trigger]
                suites.contains(cs) <==> self@.contains_key(cs) && is_classical(cs) == classical by {
                if suites.contains(cs) {
                    let j = choose|j: int| 0 <= j < count && #[trigger] listed[j].0 == cs;
                    lemma_entry_in_map(listed, j);
                    assert(listed[j].0.model() == cs);
                }
                if self@.contains_key(cs) && is_classical(cs) == classical {
                    let j = choose|j: int|
                        0 <= j < listed.len() && #[trigger] listed[j].0.model() == cs;
                    assert(listed[j].0 == cs);
                }
            }
            assert(are_packages_for(self@, classical, suites, found@));
        }
        found
    }

    /// The number of key packages.
    pub fn len(&self) -> (r: usize)
        ensures
            r == self@.dom().len(),
    {
        self.packages.len()
    }

    /// Whether there are no key packages.
    pub fn is_empty(&self) -> (r: bool)
        ensures
            r == (self@.dom().len() == 0),
    {
        self.packages.len() == 0
    }
}

/// `true` if `build` can have made a key package for `cs`.
pub open spec fn can_build<F: Fn(Ciphersuite) -> Result<KeyPackageBundle, String>>(
    build: F,
    cs: Ciphersuite,
) -> bool {
    exists|b: KeyPackageBundle| call_ensures(build, (cs,), Ok(b))
}

/// `true` if `build` fails for the suite at place `i` with `source`, and has not
/// failed for those before.
pub open spec fn built_up_to<F: Fn(Ciphersuite) -> Result<KeyPackageBundle, String>>(
    build: F,
    suites: Seq<Ciphersuite>,
    i: int,
    source: String,
) -> bool {
    &&& call_ensures(build, (suites[i],), Err(source))
    &&& forall|j: int| 0 <= j < i ==> can_build(build, #[trigger] suites[j])
}

/// `true` if `cs` is the first of `suites` for which `build` fails, with `source`.
pub open spec fn fails_for<F: Fn(Ciphersuite) -> Result<KeyPackageBundle, String>>(
    build: F,
    suites: Seq<Ciphersuite>,
    cs: Ciphersuite,
    source: String,
) -> bool {
    exists|i: int|
        0 <= i < suites.len() && suites[i] == cs && #[trigger] built_up_to(build, suites, i, source)
}

/// `true` if `r` is what making key packages for `suites` gives.
pub open spec fn generated<F: Fn(Ciphersuite) -> Result<KeyPackageBundle, String>>(
    suites: Seq<Ciphersuite>,
    cap: usize,
    build: F,
    r: Result<MultiCiphersuiteKeyPackages, MultiCiphersuiteError>,
) -> bool {
    if suites.len() == 0 {
        r == Err::<MultiCiphersuiteKeyPackages, _>(MultiCiphersuiteError::NoCiphersuites)
    } else if suites.len() > cap {
        r matches Err(MultiCiphersuiteError::TooManyCiphersuites { requested, cap: limit })
            && requested == suites.len() && limit == cap
    } else {
        match r {
            Ok(packages) => all_built(build, suites, packages@),
            Err(MultiCiphersuiteError::KeyPackageError { cs, source }) => fails_for(
                build,
                suites,
                cs,
                source,
            ),
            Err(_) => false,
        }
    }
}

/// The text of an error.
pub open spec fn multi_error_text(e: MultiCiphersuiteError) -> Seq<char> {
    match e {
        MultiCiphersuiteError::TooManyCiphersuites { requested, cap } =>
            "device capability advertises "@ + decimal(requested as nat)
            + " ciphersuites, exceeding the per-device cap of "@ + decimal(cap as nat),
        MultiCiphersuiteError::NoCiphersuites =>
            "device capability advertises no ciphersuites at all"@,
        MultiCiphersuiteError::KeyPackageError { cs, source } =>
            "KeyPackage generation failed for ciphersuite "@ + ciphersuite_name(cs) + ": "@
            + source@,
    }
}

impl MultiCiphersuiteError {
    /// The text of an error.
    pub fn message(&self) -> (r: String)
        ensures
            r@ == multi_error_text(*self),
    {
        match self {
            MultiCiphersuiteError::TooManyCiphersuites { requested, cap } => {
                let mut text: String = "device capability advertises ".to_owned();
                push_decimal(&mut text, *requested as u64);
                text.append(" ciphersuites, exceeding the per-device cap of ");
                push_decimal(&mut text, *cap as u64);
                text
            },
            MultiCiphersuiteError::NoCiphersuites =>
                "device capability advertises no ciphersuites at all".to_owned(),
            MultiCiphersuiteError::KeyPackageError { cs, source } => {
                let mut text: String = "KeyPackage generation failed for ciphersuite ".to_owned();
                text.append(cs.name());
                text.append(": ");
                text.append(source.as_str());
                text
            },
        }
    }
}

/// `unique` keeps the order in which the suites first occur: of two suites that it
/// gives, the one that it gives first also occurs first.
pub proof fn unique_keeps_the_order(list: Seq<Ciphersuite>, x: int, y: int)
    requires
        0 <= x < y < unique(list).len(),
    ensures
        exists|i: int|
            0 <= i < list.len() && #[trigger] list[i] == unique(list)[x] && forall|k: int|
                0 <= k <= i ==> #[trigger] list[k] != unique(list)[y],
    decreases list.len(),
{
    let init = list.drop_last();
    let before = unique(init);
    unique_keeps_each_suite_once(init);
    unique_keeps_each_suite_once(list);
    if y < before.len() {
        unique_keeps_the_order(init, x, y);
        let i = choose|i: int|
            0 <= i < init.len() && #[trigger] init[i] == before[x] && forall|k: int|
                0 <= k <= i ==> #[trigger] init[k] != before[y];
        assert(list[i] == unique(list)[x]);
        assert forall|k: int| 0 <= k <= i implies #[trigger] list[k] != unique(list)[y] by {
            assert(init[k] == list[k]);
        }
    } else {
        assert(before.contains(before[x]));
        assert(init.contains(before[x]));
        let i = choose|i: int| 0 <= i < init.len() && init[i] == before[x];
        assert(list[i] == unique(list)[x]);
        assert forall|k: int| 0 <= k <= i implies #[trigger] list[k] != unique(list)[y] by {
            assert(init[k] == list[k]);
            assert(init.contains(init[k]));
            assert(before.contains(list[k]));
        }
    }
}

proof fn lemma_unique_extends(a: Seq<Ciphersuite>, b: Seq<Ciphersuite>)
    ensures
        unique(a).len() <= unique(a + b).len(),
        unique(a + b).take(unique(a).len() as int) == unique(a),
    decreases b.len(),
{
    if b.len() == 0 {
        assert(a + b =~= a);
        assert(unique(a).take(unique(a).len() as int) =~= unique(a));
    } else {
        lemma_unique_extends(a, b.drop_last());
        assert((a + b).drop_last() =~= a + b.drop_last());
        assert(unique(a + b).take(unique(a).len() as int) =~= unique(a + b.drop_last()).take(
            unique(a).len() as int,
        ));
    }
}

/// The suites of a device are those of its two lists, each once, and the classical ones
/// come first.
pub proof fn device_suites_are_those_of_both_lists(c: DeviceCapabilityView, cs: Ciphersuite)
    ensures
        device_suites(c).contains(cs) <==> c.classical_ciphersuites.contains(cs)
            || c.pq_ciphersuites.contains(cs),
        device_suites(c).no_duplicates(),
        unique(c.classical_ciphersuites).is_prefix_of(device_suites(c)),
{
    let all = c.classical_ciphersuites + c.pq_ciphersuites;
    unique_keeps_each_suite_once(all);
    lemma_unique_extends(c.classical_ciphersuites, c.pq_ciphersuites);
    let n = unique(c.classical_ciphersuites).len() as int;
    assert(unique(c.classical_ciphersuites) =~= device_suites(c).subrange(0, n)) by {
        assert(device_suites(c).take(n) =~= device_suites(c).subrange(0, n));
    }
    if all.contains(cs) {
        let i = choose|i: int| 0 <= i < all.len() && all[i] == cs;
        if i < c.classical_ciphersuites.len() {
            assert(c.classical_ciphersuites[i] == cs);
        } else {
            assert(c.pq_ciphersuites[i - c.classical_ciphersuites.len()] == cs);
        }
    }
    if c.classical_ciphersuites.contains(cs) {
        let i = choose|i: int|
            0 <= i < c.classical_ciphersuites.len() && c.classical_ciphersuites[i] == cs;
        assert(all[i] == cs);
    }
    if c.pq_ciphersuites.contains(cs) {
        let i = choose|i: int| 0 <= i < c.pq_ciphersuites.len() && c.pq_ciphersuites[i] == cs;
        assert(all[c.classical_ciphersuites.len() + i] == cs);
    }
}

/// Making key packages succeeds only for a number of suites from 1 to the cap, and then
/// there is one that `build` made for each suite and no other. A device without suites,
/// or with too many, is told so and nothing else.
pub proof fn generated_packages_match_the_suites<
    F: Fn(Ciphersuite) -> Result<KeyPackageBundle, String>,
>(
    suites: Seq<Ciphersuite>,
    cap: usize,
    build: F,
    r: Result<MultiCiphersuiteKeyPackages, MultiCiphersuiteError>,
    cs: Ciphersuite,
)
    requires
        generated(suites, cap, build, r),
    ensures
        match r {
            Ok(packages) => 0 < suites.len() <= cap && (packages@.contains_key(cs)
                <==> suites.contains(cs)) && (suites.contains(cs) ==> call_ensures(
                build,
                (cs,),
                Ok(packages@[cs]),
            )),
            Err(MultiCiphersuiteError::NoCiphersuites) => suites.len() == 0,
            Err(MultiCiphersuiteError::TooManyCiphersuites { requested, cap: limit }) => requested
                == suites.len() && limit == cap && requested > cap,
            Err(MultiCiphersuiteError::KeyPackageError { cs: failed, source }) => 0 < suites.len()
                <= cap && suites.contains(failed) && call_ensures(build, (failed,), Err(source)),
        },
{
    match r {
        Err(MultiCiphersuiteError::KeyPackageError { cs: failed, source }) => {
            let i = choose|i: int|
                0 <= i < suites.len() && suites[i] == failed && #[trigger] built_up_to(
                    build,
                    suites,
                    i,
                    source,
                );
            assert(suites[i] == failed);
        },
        _ => {},
    }
}

/// Every key package is listed once, among the classical ones or among the others, and
/// among the classical ones exactly if its suite is one of the seven final ones.
pub proof fn packages_are_classical_or_not(
    packages: Map<Ciphersuite, KeyPackageBundle>,
    classical: Seq<Ciphersuite>,
    weak: Seq<&KeyPackageBundle>,
    others: Seq<Ciphersuite>,
    strong: Seq<&KeyPackageBundle>,
    cs: Ciphersuite,
)
    requires
        are_packages_for(packages, true, classical, weak),
        are_packages_for(packages, false, others, strong),
    ensures
        classical.contains(cs) <==> packages.contains_key(cs) && ciphersuite_codepoint(cs) <= 7,
        others.contains(cs) <==> packages.contains_key(cs) && ciphersuite_codepoint(cs) > 7,
        packages.contains_key(cs) ==> (exists|i: int|
            0 <= i < weak.len() && *(#[trigger] weak[i]) == packages[cs]) || (exists|i: int|
            0 <= i < strong.len() && *(#[trigger] strong[i]) == packages[cs]),
        weak.len() == classical.len(),
        strong.len() == others.len(),
{
    suite_mode_shows_in_codepoint_and_signature(cs);
    if classical.contains(cs) {
        let i = choose|i: int| 0 <= i < classical.len() && classical[i] == cs;
        assert(*weak[i] == packages[cs]);
    }
    if others.contains(cs) {
        let i = choose|i: int| 0 <= i < others.len() && others[i] == cs;
        assert(*strong[i] == packages[cs]);
    }
}

/// A failed generation names the first suite that failed, with its reason: whichever
/// place stands before it in the list could be built.
pub proof fn first_failure_is_named<F: Fn(Ciphersuite) -> Result<KeyPackageBundle, String>>(
    suites: Seq<Ciphersuite>,
    cap: usize,
    build: F,
    cs: Ciphersuite,
    source: String,
    k: int,
)
    requires
        generated(
            suites,
            cap,
            build,
            Err(MultiCiphersuiteError::KeyPackageError { cs, source }),
        ),
    ensures
        exists|i: int|
            0 <= i < suites.len() && #[trigger] suites[i] == cs && call_ensures(
                build,
                (cs,),
                Err(source),
            ) && (0 <= k < i ==> exists|b: KeyPackageBundle|
                call_ensures(build, (suites[k],), Ok(b))),
{
    let i = choose|i: int|
        0 <= i < suites.len() && suites[i] == cs && #[trigger] built_up_to(
            build,
            suites,
            i,
            source,
        );
    if 0 <= k < i {
        assert(can_build(build, suites[k]));
    }
}

} // verus!
