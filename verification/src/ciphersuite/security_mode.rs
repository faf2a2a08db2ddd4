//! Security modes of a conversation.
//!
//! - `Classical`: classical KEM, classical signature.
//! - `PqConfidentiality`: hybrid or post-quantum KEM, classical signature.
//! - `PqAuthenticity`: hybrid or post-quantum KEM and ML-DSA signatures.
//!
//! The modes are ordered, weakest first.
use crate::credentials::device_capability::{
    every_list_contains, first_suite, list_contains, DeviceCapability, DeviceCapabilityView,
};
use crate::types::{
    ciphersuite_codepoint, ciphersuite_signature, signature_is_post_quantum, Ciphersuite,
    SignatureScheme,
};
use vstd::prelude::*;

verus! {

/// A security mode. Stronger modes come later.
#[derive(Debug, Clone, Copy, PartialEq, Eq, PartialOrd, Ord, Hash, Structural)]
pub enum SecurityMode {
    /// Classical MLS.
    Classical,
    /// Hybrid or post-quantum KEM with classical signatures.
    PqConfidentiality,
    /// Hybrid or post-quantum KEM with ML-DSA signatures.
    PqAuthenticity,
}

/// The place of a mode in the order of the modes. It is also the mode's byte on
/// the wire.
pub open spec fn mode_rank(mode: SecurityMode) -> u8 {
    match mode {
        SecurityMode::Classical => 0,
        SecurityMode::PqConfidentiality => 1,
        SecurityMode::PqAuthenticity => 2,
    }
}

/// The name of a mode, as written in its variant.
pub open spec fn mode_name(mode: SecurityMode) -> Seq<char> {
    match mode {
        SecurityMode::Classical => "Classical"@,
        SecurityMode::PqConfidentiality => "PqConfidentiality"@,
        SecurityMode::PqAuthenticity => "PqAuthenticity"@,
    }
}

/// `true` for the suites whose KEM is hybrid or post-quantum.
pub open spec fn suite_uses_pq_kem(cs: Ciphersuite) -> bool {
    cs is MLS_256_XWING_CHACHA20POLY1305_SHA256_Ed25519
        || cs is MLS_256_MLKEM768_X25519_AES256GCM_SHA384_Ed25519
        || cs is MLS_256_MLKEM768_X25519_CHACHA20POLY1305_SHA256_Ed25519
        || cs is MLS_256_MLKEM1024_AES256GCM_SHA512_Ed448
        || cs is MLS_256_MLKEM768_AES256GCM_SHA384_Ed25519
        || cs is MLS_256_MLKEM768_X25519_AES256GCM_SHA384_MLDSA65
        || cs is MLS_256_MLKEM768_AES256GCM_SHA384_MLDSA65
}

/// The mode that a ciphersuite provides.
pub open spec fn suite_mode(cs: Ciphersuite) -> SecurityMode {
    if !suite_uses_pq_kem(cs) {
        SecurityMode::Classical
    } else if signature_is_post_quantum(ciphersuite_signature(cs)) {
        SecurityMode::PqAuthenticity
    } else {
        SecurityMode::PqConfidentiality
    }
}

/// `true` if a peer supports a mode.
pub open spec fn peer_supports(peer: DeviceCapabilityView, mode: SecurityMode) -> bool {
    match mode {
        SecurityMode::Classical => true,
        SecurityMode::PqConfidentiality => peer.pq_ciphersuites.len() > 0,
        SecurityMode::PqAuthenticity => peer.pq_auth_supported && peer.pq_ciphersuites.len() > 0,
    }
}

/// `true` if there are peers and all of them support `mode`.
pub open spec fn peers_support(peers: Seq<&DeviceCapability>, mode: SecurityMode) -> bool {
    peers.len() > 0 && forall|i: int|
        0 <= i < peers.len() ==> peer_supports((#[trigger] peers[i])@, mode)
}

/// The strongest mode that all peers support.
pub open spec fn selected_mode(peers: Seq<&DeviceCapability>) -> SecurityMode {
    if peers_support(peers, SecurityMode::PqAuthenticity) {
        SecurityMode::PqAuthenticity
    } else if peers_support(peers, SecurityMode::PqConfidentiality) {
        SecurityMode::PqConfidentiality
    } else {
        SecurityMode::Classical
    }
}

/// The list in which a peer names its suites for `mode`.
pub open spec fn suites_for(peer: DeviceCapabilityView, mode: SecurityMode) -> Seq<Ciphersuite> {
    match mode {
        SecurityMode::Classical => peer.classical_ciphersuites,
        _ => peer.pq_ciphersuites,
    }
}

/// The lists of all peers behind the first one.
pub open spec fn other_suites(peers: Seq<&DeviceCapability>, mode: SecurityMode) -> Seq<
    Seq<Ciphersuite>,
> {
    Seq::new((peers.len() - 1) as nat, |i: int| suites_for(peers[i + 1]@, mode))
}

/// The first suite of the first peer that provides exactly `mode` and that every
/// other peer lists too.
pub open spec fn selected_suite(peers: Seq<&DeviceCapability>, mode: SecurityMode) -> Option<
    Ciphersuite,
> {
    if peers.len() == 0 {
        None
    } else {
        first_suite(
            suites_for(peers[0]@, mode),
            |cs: Ciphersuite|
                suite_mode(cs) == mode && every_list_contains(other_suites(peers, mode), cs),
        )
    }
}

impl SecurityMode {
    /// The place of the mode in the order of the modes.
    pub fn rank(self) -> (r: u8)
        ensures
            r == mode_rank(self),
    {
        match self {
            SecurityMode::Classical => 0,
            SecurityMode::PqConfidentiality => 1,
            SecurityMode::PqAuthenticity => 2,
        }
    }

    /// The name of the mode.
    pub fn name(self) -> (r: &'static str)
        ensures
            r@ == mode_name(self),
    {
        match self {
            SecurityMode::Classical => "Classical",
            SecurityMode::PqConfidentiality => "PqConfidentiality",
            SecurityMode::PqAuthenticity => "PqAuthenticity",
        }
    }

    /// The mode that a ciphersuite provides.
    pub fn from_ciphersuite(cs: Ciphersuite) -> (r: SecurityMode)
        ensures
            r == suite_mode(cs),
    {
        let signature = cs.signature_algorithm();
        let pq_kem = ciphersuite_uses_pq_kem(cs);
        let pq_sig = signature.is_post_quantum();
        match (pq_kem, pq_sig) {
            (true, true) => SecurityMode::PqAuthenticity,
            (true, false) => SecurityMode::PqConfidentiality,
            (false, _) => SecurityMode::Classical,
        }
    }

    /// The strongest mode that all peers support. With no peers that is
    /// `Classical`.
    pub fn select_mode(capabilities: &[&DeviceCapability]) -> (r: SecurityMode)
        ensures
            r == selected_mode(capabilities@),
    {
        if capabilities.len() == 0 {
            return SecurityMode::Classical;
        }
        let mut all_pq_auth: bool = true;
        let mut all_pq_conf: bool = true;
        let mut i: usize = 0;
        while i < capabilities.len()
            invariant
                i <= capabilities@.len(),
                all_pq_auth <==> forall|j: int|
                    0 <= j < i ==> peer_supports(
                        (#[trigger] capabilities@[j])@,
                        SecurityMode::PqAuthenticity,
                    ),
                all_pq_conf <==> forall|j: int|
                    0 <= j < i ==> peer_supports(
                        (#[trigger] capabilities@[j])@,
                        SecurityMode::PqConfidentiality,
                    ),
            decreases capabilities@.len() - i,
        {
            let c = capabilities[i];
            let pq = c.supports_pq();
            assert(c@ == capabilities@[i as int]@);
            all_pq_auth = all_pq_auth && c.pq_auth_supported && pq;
            all_pq_conf = all_pq_conf && pq;
            i += 1;
        }
        if all_pq_auth {
            return SecurityMode::PqAuthenticity;
        }
        if all_pq_conf {
            return SecurityMode::PqConfidentiality;
        }
        SecurityMode::Classical
    }

    /// The best suite for `mode` that all peers list, in the order in which the
    /// first peer lists them.
    pub fn select_ciphersuite(capabilities: &[&DeviceCapability], mode: SecurityMode) -> (r: Option<
        Ciphersuite,
    >)
        ensures
            r == selected_suite(capabilities@, mode),
    {
        if capabilities.len() == 0 {
            return None;
        }
        let anchor = capabilities[0];
        let candidates: &[Ciphersuite] = match mode {
            SecurityMode::Classical => anchor.classical_ciphersuites.as_slice(),
            SecurityMode::PqConfidentiality | SecurityMode::PqAuthenticity =>
                anchor.pq_ciphersuites.as_slice(),
        };
        let ghost p = |cs: Ciphersuite|
            suite_mode(cs) == mode && every_list_contains(other_suites(capabilities@, mode), cs);
        let mut i: usize = 0;
        assert(candidates@.skip(0) =~= candidates@);
        while i < candidates.len()
            invariant
                i <= candidates@.len(),
                capabilities@.len() > 0,
                forall|cs: Ciphersuite| #[trigger]
                    p(cs) == (suite_mode(cs) == mode && every_list_contains(
                        other_suites(capabilities@, mode),
                        cs,
                    )),
                first_suite(candidates@, p) == first_suite(candidates@.skip(i as int), p),
                candidates@ == suites_for(capabilities@[0]@, mode),
                selected_suite(capabilities@, mode) == first_suite(candidates@, p),
            decreases candidates@.len() - i,
        {
            let suite = candidates[i];
            assert(candidates@.skip(i as int)[0] == suite);
            assert(candidates@.skip(i as int).skip(1) =~= candidates@.skip(i + 1));
            if SecurityMode::from_ciphersuite(suite) == mode && Self::supported_by_others(
                capabilities,
                mode,
                suite,
            ) {
                assert(p(suite));
                return Some(suite);
            }
            assert(!p(suite));
            i += 1;
        }
        None
    }

    /// Whether every peer behind the first one lists `suite` for `mode`.
    fn supported_by_others(
        capabilities: &[&DeviceCapability],
        mode: SecurityMode,
        suite: Ciphersuite,
    ) -> (r: bool)
        requires
            capabilities@.len() > 0,
        ensures
            r == every_list_contains(other_suites(capabilities@, mode), suite),
    {
        let ghost lists = other_suites(capabilities@, mode);
        let mut i: usize = 1;
        while i < capabilities.len()
            invariant
                1 <= i <= capabilities@.len(),
                lists == other_suites(capabilities@, mode),
                forall|j: int| 0 <= j < i - 1 ==> (#[trigger] lists[j]).contains(suite),
            decreases capabilities@.len() - i,
        {
            let peer = capabilities[i];
            let list: &[Ciphersuite] = match mode {
                SecurityMode::Classical => peer.classical_ciphersuites.as_slice(),
                SecurityMode::PqConfidentiality | SecurityMode::PqAuthenticity =>
                    peer.pq_ciphersuites.as_slice(),
            };
            assert(lists[i - 1] == list@);
            if !list_contains(list, suite) {
                return false;
            }
            i += 1;
        }
        true
    }

    /// Whether a conversation may go from one mode to another: it may stay or grow
    /// stronger.
    pub fn allows_transition(from: SecurityMode, to: SecurityMode) -> (r: bool)
        ensures
            r == (mode_rank(to) >= mode_rank(from)),
    {
        to.rank() >= from.rank()
    }
}

/// Whether the suite's KEM is hybrid or post-quantum.
fn ciphersuite_uses_pq_kem(cs: Ciphersuite) -> (r: bool)
    ensures
        r == suite_uses_pq_kem(cs),
{
    matches!(
        cs,
        Ciphersuite::MLS_256_XWING_CHACHA20POLY1305_SHA256_Ed25519
            | Ciphersuite::MLS_256_MLKEM768_X25519_AES256GCM_SHA384_Ed25519
            | Ciphersuite::MLS_256_MLKEM768_X25519_CHACHA20POLY1305_SHA256_Ed25519
            | Ciphersuite::MLS_256_MLKEM1024_AES256GCM_SHA512_Ed448
            | Ciphersuite::MLS_256_MLKEM768_AES256GCM_SHA384_Ed25519
            | Ciphersuite::MLS_256_MLKEM768_X25519_AES256GCM_SHA384_MLDSA65
            | Ciphersuite::MLS_256_MLKEM768_AES256GCM_SHA384_MLDSA65
    )
}

/// The three modes stand in a strict order: `Classical` is the weakest,
/// `PqAuthenticity` the strongest, and no two share a place. The places are the bytes
/// from 0 to 2.
pub proof fn modes_are_strictly_ordered(a: SecurityMode, b: SecurityMode)
    ensures
        mode_rank(a) == mode_rank(b) <==> a == b,
        mode_rank(SecurityMode::Classical) <= mode_rank(a),
        mode_rank(a) <= mode_rank(SecurityMode::PqAuthenticity),
        mode_rank(a) <= 2,
{
}

/// A suite provides a post-quantum mode exactly when its codepoint is not one of the
/// seven final ones, and `PqAuthenticity` exactly when it signs with ML-DSA, as the
/// suites from `0xFE05` on do.
pub proof fn suite_mode_shows_in_codepoint_and_signature(cs: Ciphersuite)
    ensures
        suite_mode(cs) == SecurityMode::Classical <==> 1 <= ciphersuite_codepoint(cs) <= 7,
        suite_mode(cs) == SecurityMode::PqAuthenticity <==> ciphersuite_codepoint(cs) >= 0xFE05,
        suite_mode(cs) == SecurityMode::PqAuthenticity <==> ciphersuite_signature(cs)
            == SignatureScheme::MLDSA65,
{
}

/// Peers are taken for `PqAuthenticity` exactly when there are any and each one lists a
/// post-quantum suite and can sign with ML-DSA, and for `Classical` exactly when there
/// are none or one of them lists no post-quantum suite.
pub proof fn selected_mode_shows_in_capabilities(peers: Seq<&DeviceCapability>)
    ensures
        selected_mode(peers) == SecurityMode::PqAuthenticity <==> peers.len() > 0 && forall|i: int|
            0 <= i < peers.len() ==> (#[trigger] peers[i])@.pq_auth_supported
                && peers[i]@.pq_ciphersuites.len() > 0,
        selected_mode(peers) == SecurityMode::Classical <==> peers.len() == 0 || exists|i: int|
            0 <= i < peers.len() && (#[trigger] peers[i])@.pq_ciphersuites.len() == 0,
{
    if peers.len() > 0 {
        if peers_support(peers, SecurityMode::PqAuthenticity) {
            assert forall|i: int| 0 <= i < peers.len() implies (
            #[trigger] peers[i])@.pq_auth_supported && peers[i]@.pq_ciphersuites.len() > 0 by {
                assert(peer_supports(peers[i]@, SecurityMode::PqAuthenticity));
            }
        }
        if peers_support(peers, SecurityMode::PqConfidentiality) {
            assert forall|i: int| 0 <= i < peers.len() implies (
            #[trigger] peers[i])@.pq_ciphersuites.len() > 0 by {
                assert(peer_supports(peers[i]@, SecurityMode::PqConfidentiality));
            }
        }
    }
}

/// Modes are told apart by their names.
pub proof fn names_tell_modes_apart(a: SecurityMode, b: SecurityMode)
    ensures
        mode_name(a) == mode_name(b) ==> a == b,
{
    reveal_strlit("Classical");
    reveal_strlit("PqConfidentiality");
    reveal_strlit("PqAuthenticity");
    assert("Classical"@.len() == 9);
    assert("PqConfidentiality"@.len() == 17);
    assert("PqAuthenticity"@.len() == 14);
}

} // verus!
