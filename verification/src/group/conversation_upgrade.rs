//! Which mode and suite a new conversation gets.
use crate::ciphersuite::security_mode::{
    mode_name, mode_rank, peer_supports, peers_support, selected_mode,
    selected_mode_shows_in_capabilities, selected_suite, suite_mode,
    suite_mode_shows_in_codepoint_and_signature, suites_for, SecurityMode,
};
use crate::credentials::device_capability::{
    every_list_contains, first_suite, DeviceCapability,
};
use crate::types::{
    ciphersuite_codepoint, ciphersuite_signature, Ciphersuite, SignatureScheme,
};
use vstd::prelude::*;
use vstd::string::*;

verus! {

/// Why a conversation cannot be created.
#[derive(Debug, Clone, Copy, PartialEq, Eq, Structural)]
pub enum ConversationUpgradeError {
    /// There are no participants.
    NoParticipants,
    /// The participants have no suite in common for the mode.
    NoCommonCiphersuite {
        /// The mode.
        mode: SecurityMode,
    },
}

/// The mode and the suite of a new conversation: those for the strongest mode that
/// every peer supports. Where the peers share no suite for `PqAuthenticity`, they
/// fall back to `PqConfidentiality`, and never from there to `Classical`.
pub open spec fn conversation_choice(peers: Seq<&DeviceCapability>) -> Result<
    (SecurityMode, Ciphersuite),
    ConversationUpgradeError,
> {
    let mode = selected_mode(peers);
    if peers.len() == 0 {
        Err(ConversationUpgradeError::NoParticipants)
    } else {
        match selected_suite(peers, mode) {
            Some(cs) => Ok((mode, cs)),
            None => match (mode, selected_suite(peers, SecurityMode::PqConfidentiality)) {
                (SecurityMode::PqAuthenticity, Some(cs)) => Ok(
                    (SecurityMode::PqConfidentiality, cs),
                ),
                _ => Err(ConversationUpgradeError::NoCommonCiphersuite { mode }),
            },
        }
    }
}

/// Picks the mode and the suite of a new conversation.
pub fn select_conversation_mode(peer_capabilities: &[&DeviceCapability]) -> (r: Result<
    (SecurityMode, Ciphersuite),
    ConversationUpgradeError,
>)
    ensures
        r == conversation_choice(peer_capabilities@),
{
    if peer_capabilities.len() == 0 {
        return Err(ConversationUpgradeError::NoParticipants);
    }
    let target_mode = SecurityMode::select_mode(peer_capabilities);
    if let Some(cs) = SecurityMode::select_ciphersuite(peer_capabilities, target_mode) {
        return Ok((target_mode, cs));
    }
    if target_mode == SecurityMode::PqAuthenticity {
        if let Some(cs) = SecurityMode::select_ciphersuite(
            peer_capabilities,
            SecurityMode::PqConfidentiality,
        ) {
            return Ok((SecurityMode::PqConfidentiality, cs));
        }
        return Err(
            ConversationUpgradeError::NoCommonCiphersuite { mode: SecurityMode::PqAuthenticity },
        );
    }
    Err(ConversationUpgradeError::NoCommonCiphersuite { mode: target_mode })
}

/// What `first_suite` returns is in the list and has the property, and where it
/// returns nothing no suite of the list has it.
pub proof fn lemma_first_suite(list: Seq<Ciphersuite>, p: spec_fn(Ciphersuite) -> bool)
    ensures
        match first_suite(list, p) {
            Some(cs) => list.contains(cs) && p(cs),
            None => forall|cs: Ciphersuite| #[trigger] list.contains(cs) ==> !p(cs),
        },
    decreases list.len(),
{
    if list.len() > 0 && !p(list[0]) {
        let tail = list.skip(1);
        lemma_first_suite(tail, p);
        match first_suite(list, p) {
            Some(cs) => {
                let i = choose|i: int| 0 <= i < tail.len() && tail[i] == cs;
                assert(list[i + 1] == cs);
            },
            None => {
                assert forall|cs: Ciphersuite| #[trigger] list.contains(cs) implies !p(cs) by {
                    let i = choose|i: int| 0 <= i < list.len() && list[i] == cs;
                    if i > 0 {
                        assert(tail[i - 1] == cs);
                        assert(tail.contains(cs));
                    }
                }
            },
        }
    } else if list.len() > 0 {
        assert(list[0] == list[0]);
    }
}

/// `true` if every peer lists `cs` for `mode`.
pub open spec fn all_list(
    peers: Seq<&DeviceCapability>,
    mode: SecurityMode,
    cs: Ciphersuite,
) -> bool {
    forall|i: int| 0 <= i < peers.len() ==> suites_for((#[trigger] peers[i])@, mode).contains(cs)
}

/// A selected suite provides exactly the mode it was selected for, and every peer
/// lists it. Where none is selected, there is none to select.
pub proof fn selected_suite_is_common(peers: Seq<&DeviceCapability>, mode: SecurityMode)
    requires
        peers.len() > 0,
    ensures
        match selected_suite(peers, mode) {
            Some(cs) => suite_mode(cs) == mode && all_list(peers, mode, cs),
            None => forall|cs: Ciphersuite|
                suite_mode(cs) == mode ==> !(#[trigger] all_list(peers, mode, cs)),
        },
{
    let others = crate::ciphersuite::security_mode::other_suites(peers, mode);
    let list = suites_for(peers[0]@, mode);
    let p = |cs: Ciphersuite| suite_mode(cs) == mode && every_list_contains(others, cs);
    lemma_first_suite(list, p);
    match selected_suite(peers, mode) {
        Some(cs) => {
            assert forall|i: int| 0 <= i < peers.len() implies suites_for(
                (#[trigger] peers[i])@,
                mode,
            ).contains(cs) by {
                if i > 0 {
                    assert(others[i - 1].contains(cs));
                }
            }
        },
        None => {
            assert forall|cs: Ciphersuite| suite_mode(cs) == mode implies !(#[trigger] all_list(
                peers,
                mode,
                cs,
            )) by {
                if all_list(peers, mode, cs) {
                    assert(suites_for(peers[0]@, mode).contains(cs));
                    assert forall|i: int| 0 <= i < others.len() implies (
                    #[trigger] others[i]).contains(cs) by {
                        assert(suites_for(peers[i + 1]@, mode).contains(cs));
                    }
                    assert(p(cs));
                }
            }
        },
    }
}

/// The selected mode is supported by every peer, and no stronger one is.
pub proof fn selected_mode_is_strongest(peers: Seq<&DeviceCapability>, mode: SecurityMode)
    requires
        peers.len() > 0,
    ensures
        peers_support(peers, selected_mode(peers)),
        peers_support(peers, mode) ==> mode_rank(mode) <= mode_rank(selected_mode(peers)),
{
    if selected_mode(peers) == SecurityMode::Classical {
        assert(peers_support(peers, SecurityMode::Classical));
    }
}

/// Whatever is chosen, the suite provides exactly the mode, every peer supports
/// the mode and every peer lists the suite.
pub proof fn choice_is_sound(peers: Seq<&DeviceCapability>)
    ensures
        conversation_choice(peers) matches Ok((mode, cs)) ==> suite_mode(cs) == mode
            && peers_support(peers, mode) && all_list(peers, mode, cs),
{
    if peers.len() > 0 {
        selected_suite_is_common(peers, selected_mode(peers));
        selected_suite_is_common(peers, SecurityMode::PqConfidentiality);
        selected_mode_is_strongest(peers, SecurityMode::Classical);
    }
}

/// Peers who all list a post-quantum suite never end up with a classical
/// conversation: they get a post-quantum one or an error.
pub proof fn no_silent_fallback_to_classical(peers: Seq<&DeviceCapability>)
    requires
        peers_support(peers, SecurityMode::PqConfidentiality),
    ensures
        match conversation_choice(peers) {
            Ok((mode, cs)) => mode != SecurityMode::Classical && suite_mode(cs)
                != SecurityMode::Classical,
            Err(e) => e == (ConversationUpgradeError::NoCommonCiphersuite {
                mode: selected_mode(peers),
            }) && selected_mode(peers) != SecurityMode::Classical,
        },
{
    choice_is_sound(peers);
}

/// The text of an error.
pub open spec fn upgrade_error_text(e: ConversationUpgradeError) -> Seq<char> {
    match e {
        ConversationUpgradeError::NoParticipants => "cannot create a conversation with zero participants"@,
        ConversationUpgradeError::NoCommonCiphersuite { mode } => "no common ciphersuite for selected mode "@ + mode_name(mode),
    }
}

impl ConversationUpgradeError {
    /// The text of an error.
    pub fn message(&self) -> (r: String)
        ensures
            r@ == upgrade_error_text(*self),
    {
        match self {
            ConversationUpgradeError::NoParticipants => "cannot create a conversation with zero participants".to_owned(),
            ConversationUpgradeError::NoCommonCiphersuite { mode } => {
                let mut text: String = "no common ciphersuite for selected mode ".to_owned();
                text.append(mode.name());
                text
            },
        }
    }
}

/// Peers get the strongest mode for which they share a suite: if every peer supports
/// `mode` and lists `cs`, and `cs` provides exactly that mode, then the choice succeeds
/// and is at least as strong. For `Classical` that is promised only to peers who do not
/// all support a post-quantum mode.
pub proof fn strongest_shared_mode_is_chosen(
    peers: Seq<&DeviceCapability>,
    mode: SecurityMode,
    cs: Ciphersuite,
)
    requires
        peers_support(peers, mode),
        all_list(peers, mode, cs),
        suite_mode(cs) == mode,
        mode == SecurityMode::Classical ==> !peers_support(peers, SecurityMode::PqConfidentiality),
    ensures
        conversation_choice(peers) matches Ok((chosen, _)) && mode_rank(chosen) >= mode_rank(mode),
{
    selected_mode_is_strongest(peers, mode);
    selected_suite_is_common(peers, selected_mode(peers));
    selected_suite_is_common(peers, SecurityMode::PqConfidentiality);
    if selected_mode(peers) == SecurityMode::PqAuthenticity {
        assert forall|i: int| 0 <= i < peers.len() implies peer_supports(
            (#[trigger] peers[i])@,
            SecurityMode::PqConfidentiality,
        ) by {
            assert(peer_supports(peers[i]@, SecurityMode::PqAuthenticity));
        }
    }
}

/// A mode is chosen only where no suite of a stronger mode that every peer supports is
/// listed by all of them.
pub proof fn weaker_mode_only_where_nothing_stronger_is_shared(
    peers: Seq<&DeviceCapability>,
    stronger: SecurityMode,
    cs: Ciphersuite,
)
    requires
        conversation_choice(peers) matches Ok((chosen, _)) && mode_rank(chosen) < mode_rank(
            stronger,
        ),
        peers_support(peers, stronger),
        suite_mode(cs) == stronger,
    ensures
        !all_list(peers, stronger, cs),
{
    if all_list(peers, stronger, cs) {
        strongest_shared_mode_is_chosen(peers, stronger, cs);
    }
}

/// What the capabilities alone say of the choice. Peers who all can sign with ML-DSA and
/// all list one ML-DSA suite get `PqAuthenticity`. Peers who all list one post-quantum
/// suite with classical signatures get a post-quantum mode. Peers of whom one lists no
/// post-quantum suite, and who all list one classical suite, get `Classical`.
pub proof fn choice_follows_capabilities(peers: Seq<&DeviceCapability>, cs: Ciphersuite)
    requires
        peers.len() > 0,
    ensures
        ciphersuite_signature(cs) == SignatureScheme::MLDSA65 && (forall|i: int|
            0 <= i < peers.len() ==> (#[trigger] peers[i])@.pq_auth_supported
                && peers[i]@.pq_ciphersuites.contains(cs)) ==> (conversation_choice(
            peers,
        ) matches Ok((mode, _)) && mode == SecurityMode::PqAuthenticity),
        0x4D <= ciphersuite_codepoint(cs) < 0xFE05 && (forall|i: int|
            0 <= i < peers.len() ==> (#[trigger] peers[i])@.pq_ciphersuites.contains(cs)) ==> (
        conversation_choice(peers) matches Ok((mode, _)) && mode != SecurityMode::Classical),
        ciphersuite_codepoint(cs) <= 7 && (forall|i: int|
            0 <= i < peers.len() ==> (#[trigger] peers[i])@.classical_ciphersuites.contains(cs))
            && (exists|i: int|
            0 <= i < peers.len() && (#[trigger] peers[i])@.pq_ciphersuites.len() == 0) ==> (
        conversation_choice(peers) matches Ok((mode, _)) && mode == SecurityMode::Classical),
{
    suite_mode_shows_in_codepoint_and_signature(cs);
    selected_mode_shows_in_capabilities(peers);
    let mode = suite_mode(cs);
    if mode != SecurityMode::Classical && forall|i: int|
        0 <= i < peers.len() ==> (#[trigger] peers[i])@.pq_ciphersuites.contains(cs) && (mode
            == SecurityMode::PqAuthenticity ==> peers[i]@.pq_auth_supported) {
        assert forall|i: int| 0 <= i < peers.len() implies peer_supports(
            (#[trigger] peers[i])@,
            mode,
        ) by {
            assert(peers[i]@.pq_ciphersuites.contains(cs));
        }
        assert(all_list(peers, mode, cs));
        strongest_shared_mode_is_chosen(peers, mode, cs);
    }
    if mode == SecurityMode::Classical && selected_mode(peers) == mode && forall|i: int|
        0 <= i < peers.len() ==> (#[trigger] peers[i])@.classical_ciphersuites.contains(cs) {
        assert(all_list(peers, mode, cs));
        selected_mode_is_strongest(peers, mode);
        strongest_shared_mode_is_chosen(peers, mode, cs);
    }
    choice_is_sound(peers);
}

/// Every peer can live with the choice: it lists the suite where it belongs, and it can
/// sign with ML-DSA if the mode is `PqAuthenticity`. `Classical` comes only where a peer
/// lists no post-quantum suite.
pub proof fn choice_suits_every_peer(peers: Seq<&DeviceCapability>, i: int)
    requires
        0 <= i < peers.len(),
    ensures
        conversation_choice(peers) matches Ok((mode, cs)) ==> match mode {
            SecurityMode::Classical => peers[i]@.classical_ciphersuites.contains(cs)
                && ciphersuite_codepoint(cs) <= 7 && exists|j: int|
                0 <= j < peers.len() && (#[trigger] peers[j])@.pq_ciphersuites.len() == 0,
            SecurityMode::PqConfidentiality => peers[i]@.pq_ciphersuites.contains(cs) && 0x4D
                <= ciphersuite_codepoint(cs) < 0xFE05,
            SecurityMode::PqAuthenticity => peers[i]@.pq_ciphersuites.contains(cs)
                && peers[i]@.pq_auth_supported && ciphersuite_signature(cs)
                == SignatureScheme::MLDSA65,
        },
{
    choice_is_sound(peers);
    selected_mode_shows_in_capabilities(peers);
    if let Ok((mode, cs)) = conversation_choice(peers) {
        suite_mode_shows_in_codepoint_and_signature(cs);
        assert(suites_for(peers[i]@, mode).contains(cs));
        assert(peer_supports(peers[i]@, mode));
    }
}

/// The choice fails for want of participants exactly when there are none. Otherwise the
/// error names the strongest mode that every peer supports, and for that mode no suite
/// is shared, nor for a weaker post-quantum one.
pub proof fn failed_choice_has_its_reason(peers: Seq<&DeviceCapability>, cs: Ciphersuite)
    ensures
        conversation_choice(peers) == Err::<(SecurityMode, Ciphersuite), ConversationUpgradeError>(
            ConversationUpgradeError::NoParticipants,
        ) <==> peers.len() == 0,
        conversation_choice(peers) matches Err(
            ConversationUpgradeError::NoCommonCiphersuite { mode },
        ) ==> peers_support(peers, mode) && (forall|m: SecurityMode|
            peers_support(peers, m) ==> mode_rank(m) <= mode_rank(mode)) && !(suite_mode(cs)
            == mode && all_list(peers, mode, cs)) && (mode != SecurityMode::Classical ==> !(
        suite_mode(cs) == SecurityMode::PqConfidentiality && all_list(
            peers,
            SecurityMode::PqConfidentiality,
            cs,
        ))),
{
    if peers.len() > 0 {
        assert forall|m: SecurityMode| peers_support(peers, m) implies mode_rank(m) <= mode_rank(
            selected_mode(peers),
        ) by {
            selected_mode_is_strongest(peers, m);
        }
        selected_mode_is_strongest(peers, SecurityMode::Classical);
        selected_suite_is_common(peers, selected_mode(peers));
        selected_suite_is_common(peers, SecurityMode::PqConfidentiality);
    }
}

/// What `first_suite` returns stands no later than any suite that has the property.
pub proof fn lemma_first_suite_is_first(
    list: Seq<Ciphersuite>,
    p: spec_fn(Ciphersuite) -> bool,
    j: int,
) -> (i: int)
    requires
        0 <= j < list.len(),
        p(list[j]),
    ensures
        0 <= i <= j,
        first_suite(list, p) == Some(list[i]),
    decreases list.len(),
{
    if p(list[0]) {
        0
    } else {
        let tail = list.skip(1);
        assert(tail[j - 1] == list[j]);
        let i = lemma_first_suite_is_first(tail, p, j - 1);
        assert(tail[i] == list[i + 1]);
        i + 1
    }
}

/// The first peer's order decides: a suite that the first peer lists at place `j`, that
/// provides the mode and that every peer lists is chosen, or one that the first peer
/// lists before it.
pub proof fn first_peer_decides_the_order(
    peers: Seq<&DeviceCapability>,
    mode: SecurityMode,
    j: int,
)
    requires
        peers.len() > 0,
        0 <= j < suites_for(peers[0]@, mode).len(),
        suite_mode(suites_for(peers[0]@, mode)[j]) == mode,
        all_list(peers, mode, suites_for(peers[0]@, mode)[j]),
    ensures
        exists|i: int|
            0 <= i <= j && selected_suite(peers, mode) == Some(
                #[trigger] suites_for(peers[0]@, mode)[i],
            ),
{
    let others = crate::ciphersuite::security_mode::other_suites(peers, mode);
    let list = suites_for(peers[0]@, mode);
    let p = |cs: Ciphersuite| suite_mode(cs) == mode && every_list_contains(others, cs);
    assert forall|i: int| 0 <= i < others.len() implies (#[trigger] others[i]).contains(
        list[j],
    ) by {
        assert(suites_for(peers[i + 1]@, mode).contains(list[j]));
    }
    assert(p(list[j]));
    let i = lemma_first_suite_is_first(list, p, j);
    assert(selected_suite(peers, mode) == Some(list[i]));
}

} // verus!
