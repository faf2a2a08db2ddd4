//! No silent downgrades.
//!
//! Once a conversation has reached a security mode, nothing may move it back to a
//! weaker one unnoticed. The rules are functions over a small snapshot of the
//! conversation's security state.
use crate::ciphersuite::security_mode::{
    mode_name, mode_rank, suite_mode, suite_mode_shows_in_codepoint_and_signature, SecurityMode,
};
use crate::extensions::apq_info::{drift, epoch_drift, ApqInfo, ApqInfoView};
use crate::text::{decimal, push_decimal};
use crate::types::{
    ciphersuite_codepoint, ciphersuite_name, ciphersuite_signature, Ciphersuite, SignatureScheme,
};
use vstd::prelude::*;
use vstd::string::*;

verus! {

/// How far the epochs of the two sessions may be apart.
pub const MAX_EPOCH_DRIFT: u64 = 1;

/// The security state of a conversation.
#[derive(Debug, Clone, Copy, PartialEq, Eq, Structural)]
pub struct ConversationSecurityState {
    /// The mode that the conversation is in.
    pub current_mode: SecurityMode,
    /// The strongest mode that the conversation has ever been in.
    pub highest_mode_ever: SecurityMode,
    /// The weakest mode that the conversation may be in.
    pub policy_floor: SecurityMode,
    /// The suite that the conversation is pinned to, if any.
    pub pinned_ciphersuite: Option<Ciphersuite>,
}

/// The stronger of two modes.
pub open spec fn stronger(a: SecurityMode, b: SecurityMode) -> SecurityMode {
    if mode_rank(b) > mode_rank(a) {
        b
    } else {
        a
    }
}

/// The state after a change to `to` has been recorded.
pub open spec fn recorded(
    state: ConversationSecurityState,
    to: SecurityMode,
) -> ConversationSecurityState {
    ConversationSecurityState {
        current_mode: to,
        highest_mode_ever: stronger(state.highest_mode_ever, to),
        ..state
    }
}

impl ConversationSecurityState {
    /// A fresh state: every mode is `mode`, and no suite is pinned.
    pub fn new(mode: SecurityMode) -> (r: Self)
        ensures
            r == (ConversationSecurityState {
                current_mode: mode,
                highest_mode_ever: mode,
                policy_floor: mode,
                pinned_ciphersuite: None,
            }),
    {
        ConversationSecurityState {
            current_mode: mode,
            highest_mode_ever: mode,
            policy_floor: mode,
            pinned_ciphersuite: None,
        }
    }

    /// Records a change to `to`. The strongest mode ever only grows.
    pub fn record_upgrade(&mut self, to: SecurityMode)
        ensures
            *final(self) == recorded(*old(self), to),
    {
        self.current_mode = to;
        if to.rank() > self.highest_mode_ever.rank() {
            self.highest_mode_ever = to;
        }
    }
}

/// Why a change is refused.
#[allow(inconsistent_fields)]
#[derive(Debug, Clone, Copy, PartialEq, Eq, Structural)]
pub enum DowngradeError {
    /// The proposed mode is weaker than the current one.
    ModeDowngrade {
        /// The current mode.
        from: SecurityMode,
        /// The proposed mode.
        to: SecurityMode,
    },
    /// The proposed mode is weaker than one that the conversation has been in.
    BelowHighestEver {
        /// The strongest mode ever.
        highest: SecurityMode,
        /// The proposed mode.
        to: SecurityMode,
    },
    /// The proposed mode is weaker than the floor.
    BelowPolicyFloor {
        /// The floor.
        floor: SecurityMode,
        /// The proposed mode.
        to: SecurityMode,
    },
    /// The key package of a joiner is too weak.
    JoinerKeyPackageNotPq {
        /// The mode of the key package.
        kp_mode: SecurityMode,
        /// The mode of the conversation.
        required: SecurityMode,
    },
    /// The link record would go away.
    ApqInfoRemoval,
    /// The mode in the link record would grow weaker.
    ApqInfoModeDowngrade {
        /// The recorded mode.
        old: SecurityMode,
        /// The proposed mode.
        new: SecurityMode,
    },
    /// A suite in the link record would change.
    ApqInfoCiphersuiteChange {
        /// The recorded suite.
        old: Ciphersuite,
        /// The proposed suite.
        new: Ciphersuite,
    },
    /// The epochs of the two sessions are too far apart.
    EpochMismatch {
        /// The epoch of the T session.
        t_epoch: u64,
        /// The epoch of the PQ session.
        pq_epoch: u64,
        /// How far apart they may be.
        max: u64,
    },
    /// The pinned suite would change.
    PinnedCiphersuiteChange {
        /// The pinned suite.
        pinned: Ciphersuite,
        /// The proposed suite.
        proposed: Ciphersuite,
    },
}

/// What becomes of a proposed change of mode.
pub open spec fn mode_change_verdict(state: ConversationSecurityState, to: SecurityMode) -> Result<
    (),
    DowngradeError,
> {
    if mode_rank(to) < mode_rank(state.current_mode) {
        Err(DowngradeError::ModeDowngrade { from: state.current_mode, to })
    } else if mode_rank(to) < mode_rank(state.highest_mode_ever) {
        Err(DowngradeError::BelowHighestEver { highest: state.highest_mode_ever, to })
    } else if mode_rank(to) < mode_rank(state.policy_floor) {
        Err(DowngradeError::BelowPolicyFloor { floor: state.policy_floor, to })
    } else {
        Ok(())
    }
}

/// Checks a proposed change of mode.
pub fn validate_mode_change(state: &ConversationSecurityState, to: SecurityMode) -> (r: Result<
    (),
    DowngradeError,
>)
    ensures
        r == mode_change_verdict(*state, to),
{
    if !SecurityMode::allows_transition(state.current_mode, to) {
        return Err(DowngradeError::ModeDowngrade { from: state.current_mode, to });
    }
    if to.rank() < state.highest_mode_ever.rank() {
        return Err(DowngradeError::BelowHighestEver { highest: state.highest_mode_ever, to });
    }
    if to.rank() < state.policy_floor.rank() {
        return Err(DowngradeError::BelowPolicyFloor { floor: state.policy_floor, to });
    }
    Ok(())
}

/// What becomes of a joiner's key package.
pub open spec fn joiner_verdict(mode: SecurityMode, suite: Ciphersuite) -> Result<
    (),
    DowngradeError,
> {
    if mode_rank(suite_mode(suite)) < mode_rank(mode) {
        Err(DowngradeError::JoinerKeyPackageNotPq { kp_mode: suite_mode(suite), required: mode })
    } else {
        Ok(())
    }
}

/// Checks the key package of a joiner: its suite must provide the conversation's
/// mode.
pub fn validate_joiner_key_package(
    mode: SecurityMode,
    key_package_ciphersuite: Ciphersuite,
) -> (r: Result<(), DowngradeError>)
    ensures
        r == joiner_verdict(mode, key_package_ciphersuite),
{
    let kp_mode = SecurityMode::from_ciphersuite(key_package_ciphersuite);
    match mode {
        SecurityMode::Classical => Ok(()),
        SecurityMode::PqConfidentiality | SecurityMode::PqAuthenticity => {
            if kp_mode.rank() < mode.rank() {
                Err(DowngradeError::JoinerKeyPackageNotPq { kp_mode, required: mode })
            } else {
                Ok(())
            }
        },
    }
}

/// What becomes of a proposed change of the link record.
pub open spec fn apq_info_change_verdict(
    old: Option<ApqInfoView>,
    new: Option<ApqInfoView>,
) -> Result<(), DowngradeError> {
    match (old, new) {
        (None, _) => Ok(()),
        (Some(_), None) => Err(DowngradeError::ApqInfoRemoval),
        (Some(o), Some(n)) => if mode_rank(n.mode) < mode_rank(o.mode) {
            Err(DowngradeError::ApqInfoModeDowngrade { old: o.mode, new: n.mode })
        } else if n.t_ciphersuite != o.t_ciphersuite {
            Err(
                DowngradeError::ApqInfoCiphersuiteChange {
                    old: o.t_ciphersuite,
                    new: n.t_ciphersuite,
                },
            )
        } else if n.pq_ciphersuite != o.pq_ciphersuite {
            Err(
                DowngradeError::ApqInfoCiphersuiteChange {
                    old: o.pq_ciphersuite,
                    new: n.pq_ciphersuite,
                },
            )
        } else {
            Ok(())
        },
    }
}

/// The view of an optional record.
pub open spec fn opt_info(info: Option<&ApqInfo>) -> Option<ApqInfoView> {
    match info {
        Some(i) => Some(i@),
        None => None,
    }
}

/// Checks a proposed change of the link record. The first record is always
/// accepted.
pub fn validate_apq_info_change(old: Option<&ApqInfo>, new: Option<&ApqInfo>) -> (r: Result<
    (),
    DowngradeError,
>)
    ensures
        r == apq_info_change_verdict(opt_info(old), opt_info(new)),
{
    match (old, new) {
        (None, _) => Ok(()),
        (Some(_), None) => Err(DowngradeError::ApqInfoRemoval),
        (Some(old_info), Some(new_info)) => {
            if !SecurityMode::allows_transition(old_info.mode, new_info.mode) {
                return Err(
                    DowngradeError::ApqInfoModeDowngrade {
                        old: old_info.mode,
                        new: new_info.mode,
                    },
                );
            }
            if new_info.t_ciphersuite != old_info.t_ciphersuite {
                return Err(
                    DowngradeError::ApqInfoCiphersuiteChange {
                        old: old_info.t_ciphersuite,
                        new: new_info.t_ciphersuite,
                    },
                );
            }
            if new_info.pq_ciphersuite != old_info.pq_ciphersuite {
                return Err(
                    DowngradeError::ApqInfoCiphersuiteChange {
                        old: old_info.pq_ciphersuite,
                        new: new_info.pq_ciphersuite,
                    },
                );
            }
            Ok(())
        },
    }
}

/// What becomes of a pair of epochs, and of those in the record.
pub open spec fn epoch_verdict(
    t_epoch: u64,
    pq_epoch: u64,
    info: Option<ApqInfoView>,
) -> Result<(), DowngradeError> {
    if drift(t_epoch, pq_epoch) > MAX_EPOCH_DRIFT {
        Err(DowngradeError::EpochMismatch { t_epoch, pq_epoch, max: MAX_EPOCH_DRIFT })
    } else {
        match info {
            Some(i) => if drift(i.t_epoch, i.pq_epoch) > MAX_EPOCH_DRIFT {
                Err(
                    DowngradeError::EpochMismatch {
                        t_epoch: i.t_epoch,
                        pq_epoch: i.pq_epoch,
                        max: MAX_EPOCH_DRIFT,
                    },
                )
            } else {
                Ok(())
            },
            None => Ok(()),
        }
    }
}

/// Checks that the epochs of the two sessions, and those in the record, are close
/// to each other.
pub fn validate_epoch_consistency(
    t_epoch: u64,
    pq_epoch: u64,
    apq_info: Option<&ApqInfo>,
) -> (r: Result<(), DowngradeError>)
    ensures
        r == epoch_verdict(t_epoch, pq_epoch, opt_info(apq_info)),
{
    let live_drift: u64 = epoch_drift(t_epoch, pq_epoch);
    if live_drift > MAX_EPOCH_DRIFT {
        return Err(DowngradeError::EpochMismatch { t_epoch, pq_epoch, max: MAX_EPOCH_DRIFT });
    }
    if let Some(info) = apq_info {
        let recorded_drift: u64 = epoch_drift(info.t_epoch, info.pq_epoch);
        if recorded_drift > MAX_EPOCH_DRIFT {
            return Err(
                DowngradeError::EpochMismatch {
                    t_epoch: info.t_epoch,
                    pq_epoch: info.pq_epoch,
                    max: MAX_EPOCH_DRIFT,
                },
            );
        }
    }
    Ok(())
}

/// What becomes of a proposed suite.
pub open spec fn pin_verdict(state: ConversationSecurityState, proposed: Ciphersuite) -> Result<
    (),
    DowngradeError,
> {
    match state.pinned_ciphersuite {
        None => Ok(()),
        Some(pinned) => if pinned == proposed {
            Ok(())
        } else {
            Err(DowngradeError::PinnedCiphersuiteChange { pinned, proposed })
        },
    }
}

/// Checks a proposed suite against the pin.
pub fn validate_ciphersuite_pin(
    state: &ConversationSecurityState,
    proposed: Ciphersuite,
) -> (r: Result<(), DowngradeError>)
    ensures
        r == pin_verdict(*state, proposed),
{
    match state.pinned_ciphersuite {
        None => Ok(()),
        Some(pinned) => {
            if pinned == proposed {
                Ok(())
            } else {
                Err(DowngradeError::PinnedCiphersuiteChange { pinned, proposed })
            }
        },
    }
}

/// A change of mode is accepted exactly when it is below none of the current mode,
/// the strongest mode ever and the floor.
pub proof fn mode_change_accepted_iff(state: ConversationSecurityState, to: SecurityMode)
    ensures
        mode_change_verdict(state, to) is Ok <==> mode_rank(to) >= mode_rank(state.current_mode)
            && mode_rank(to) >= mode_rank(state.highest_mode_ever) && mode_rank(to) >= mode_rank(
            state.policy_floor,
        ),
{
}

/// Recording an accepted change weakens nothing: neither the current mode nor the
/// strongest mode ever, and the floor still holds.
pub proof fn accepted_change_never_weakens(state: ConversationSecurityState, to: SecurityMode)
    requires
        mode_change_verdict(state, to) is Ok,
    ensures
        mode_rank(recorded(state, to).current_mode) >= mode_rank(state.current_mode),
        mode_rank(recorded(state, to).highest_mode_ever) >= mode_rank(state.highest_mode_ever),
        mode_rank(recorded(state, to).current_mode) >= mode_rank(state.policy_floor),
        recorded(state, to).current_mode == recorded(state, to).highest_mode_ever,
        recorded(state, to).pinned_ciphersuite == state.pinned_ciphersuite,
{
}

/// Once a stronger mode has been recorded, every weaker one is refused, whatever
/// was recorded since.
pub proof fn strongest_mode_binds_forever(
    state: ConversationSecurityState,
    reached: SecurityMode,
    later: SecurityMode,
    to: SecurityMode,
)
    requires
        mode_rank(to) < mode_rank(reached),
    ensures
        mode_change_verdict(recorded(recorded(state, reached), later), to) is Err,
{
}

/// An accepted change of the link record keeps both suites, and keeps or
/// strengthens the mode.
pub proof fn accepted_info_change_keeps_suites(old: ApqInfoView, new: ApqInfoView)
    ensures
        apq_info_change_verdict(Some(old), Some(new)) is Ok <==> new.t_ciphersuite
            == old.t_ciphersuite && new.pq_ciphersuite == old.pq_ciphersuite && mode_rank(new.mode)
            >= mode_rank(old.mode),
        apq_info_change_verdict(Some(old), None) is Err,
        apq_info_change_verdict(None, Some(new)) is Ok,
{
}

/// The text of an error.
pub open spec fn downgrade_error_text(e: DowngradeError) -> Seq<char> {
    match e {
        DowngradeError::ModeDowngrade { from, to } => "downgrade from "@ + mode_name(from) + " to "@ + mode_name(to) + " rejected: cannot move to a weaker security mode"@,
        DowngradeError::BelowHighestEver { to, highest } => "mode change to "@ + mode_name(to) + " rejected: conversation has previously reached "@ + mode_name(highest),
        DowngradeError::BelowPolicyFloor { to, floor } => "mode change to "@ + mode_name(to) + " rejected: below policy floor "@ + mode_name(floor),
        DowngradeError::JoinerKeyPackageNotPq { kp_mode, required } => "joiner KeyPackage with mode "@ + mode_name(kp_mode) + " rejected: conversation requires "@ + mode_name(required),
        DowngradeError::ApqInfoRemoval => "APQInfo removal rejected: conversation must keep APQInfo once bootstrapped"@,
        DowngradeError::ApqInfoModeDowngrade { old, new } => "APQInfo mode change from "@ + mode_name(old) + " to "@ + mode_name(new) + " rejected: not authorized as upgrade"@,
        DowngradeError::ApqInfoCiphersuiteChange { old, new } => "APQInfo ciphersuite change from "@ + ciphersuite_name(old) + " to "@ + ciphersuite_name(new) + " rejected: pinned at bootstrap"@,
        DowngradeError::EpochMismatch { t_epoch, pq_epoch, max } => "APQInfo epoch mismatch: t_epoch "@ + decimal(t_epoch as nat) + " vs pq_epoch "@ + decimal(pq_epoch as nat) + " (max drift "@ + decimal(max as nat) + ")"@,
        DowngradeError::PinnedCiphersuiteChange { pinned, proposed } => "ciphersuite change from pinned "@ + ciphersuite_name(pinned) + " to "@ + ciphersuite_name(proposed) + " rejected"@,
    }
}

impl DowngradeError {
    /// The text of an error.
    pub fn message(&self) -> (r: String)
        ensures
            r@ == downgrade_error_text(*self),
    {
        match self {
            DowngradeError::ModeDowngrade { from, to } => {
                let mut text: String = "downgrade from ".to_owned();
                text.append(from.name());
                text.append(" to ");
                text.append(to.name());
                text.append(" rejected: cannot move to a weaker security mode");
                text
            },
            DowngradeError::BelowHighestEver { to, highest } => {
                let mut text: String = "mode change to ".to_owned();
                text.append(to.name());
                text.append(" rejected: conversation has previously reached ");
                text.append(highest.name());
                text
            },
            DowngradeError::BelowPolicyFloor { to, floor } => {
                let mut text: String = "mode change to ".to_owned();
                text.append(to.name());
                text.append(" rejected: below policy floor ");
                text.append(floor.name());
                text
            },
            DowngradeError::JoinerKeyPackageNotPq { kp_mode, required } => {
                let mut text: String = "joiner KeyPackage with mode ".to_owned();
                text.append(kp_mode.name());
                text.append(" rejected: conversation requires ");
                text.append(required.name());
                text
            },
            DowngradeError::ApqInfoRemoval => "APQInfo removal rejected: conversation must keep APQInfo once bootstrapped".to_owned(),
            DowngradeError::ApqInfoModeDowngrade { old, new } => {
                let mut text: String = "APQInfo mode change from ".to_owned();
                text.append(old.name());
                text.append(" to ");
                text.append(new.name());
                text.append(" rejected: not authorized as upgrade");
                text
            },
            DowngradeError::ApqInfoCiphersuiteChange { old, new } => {
                let mut text: String = "APQInfo ciphersuite change from ".to_owned();
                text.append(old.name());
                text.append(" to ");
                text.append(new.name());
                text.append(" rejected: pinned at bootstrap");
                text
            },
            DowngradeError::EpochMismatch { t_epoch, pq_epoch, max } => {
                let mut text: String = "APQInfo epoch mismatch: t_epoch ".to_owned();
                push_decimal(&mut text, *t_epoch);
                text.append(" vs pq_epoch ");
                push_decimal(&mut text, *pq_epoch);
                text.append(" (max drift ");
                push_decimal(&mut text, *max);
                text.append(")");
                text
            },
            DowngradeError::PinnedCiphersuiteChange { pinned, proposed } => {
                let mut text: String = "ciphersuite change from pinned ".to_owned();
                text.append(pinned.name());
                text.append(" to ");
                text.append(proposed.name());
                text.append(" rejected");
                text
            },
        }
    }
}

/// A joiner is let in exactly when the suite of its key package provides a mode at least
/// as strong as that of the conversation. A refusal tells both modes.
pub proof fn joiner_is_accepted_iff_strong_enough(mode: SecurityMode, suite: Ciphersuite)
    ensures
        joiner_verdict(mode, suite) is Ok <==> mode_rank(suite_mode(suite)) >= mode_rank(mode),
        joiner_verdict(mode, suite) matches Err(e) ==> e
            == (DowngradeError::JoinerKeyPackageNotPq {
            kp_mode: suite_mode(suite),
            required: mode,
        }),
{
}

/// Who may join shows in the suite alone: anyone in a classical conversation, in a
/// `PqConfidentiality` one those whose suite is beyond the seven classical ones, and in a
/// `PqAuthenticity` one those who sign with ML-DSA.
pub proof fn joiners_show_in_their_suites(suite: Ciphersuite)
    ensures
        joiner_verdict(SecurityMode::Classical, suite) is Ok,
        joiner_verdict(SecurityMode::PqConfidentiality, suite) is Ok <==> ciphersuite_codepoint(
            suite,
        ) > 7,
        joiner_verdict(SecurityMode::PqAuthenticity, suite) is Ok <==> ciphersuite_signature(suite)
            == SignatureScheme::MLDSA65,
{
    suite_mode_shows_in_codepoint_and_signature(suite);
}

/// Whoever may join a conversation may join every weaker one.
pub proof fn weaker_conversations_take_more_joiners(
    strong: SecurityMode,
    weak: SecurityMode,
    suite: Ciphersuite,
)
    requires
        mode_rank(weak) <= mode_rank(strong),
        joiner_verdict(strong, suite) is Ok,
    ensures
        joiner_verdict(weak, suite) is Ok,
{
}

/// A refused change of mode names the first rule that it breaks, and what it breaks it
/// with.
pub proof fn refused_mode_change_names_its_rule(
    state: ConversationSecurityState,
    to: SecurityMode,
)
    ensures
        match mode_change_verdict(state, to) {
            Ok(_) => true,
            Err(DowngradeError::ModeDowngrade { from, to: t }) => from == state.current_mode && t
                == to && mode_rank(to) < mode_rank(from),
            Err(DowngradeError::BelowHighestEver { highest, to: t }) => highest
                == state.highest_mode_ever && t == to && mode_rank(to) < mode_rank(highest)
                && mode_rank(to) >= mode_rank(state.current_mode),
            Err(DowngradeError::BelowPolicyFloor { floor, to: t }) => floor == state.policy_floor
                && t == to && mode_rank(to) < mode_rank(floor) && mode_rank(to) >= mode_rank(
                state.current_mode,
            ) && mode_rank(to) >= mode_rank(state.highest_mode_ever),
            Err(_) => false,
        },
{
}

/// Recording a mode makes it the current one. The strongest mode ever is the stronger of
/// the two, and the floor and the pin stay. Recording the same mode again changes
/// nothing, and of two recorded modes the later is current.
pub proof fn recording_sets_the_mode_and_keeps_the_rest(
    state: ConversationSecurityState,
    first: SecurityMode,
    to: SecurityMode,
)
    ensures
        recorded(state, to).current_mode == to,
        mode_rank(recorded(state, to).highest_mode_ever) >= mode_rank(to),
        mode_rank(recorded(state, to).highest_mode_ever) >= mode_rank(state.highest_mode_ever),
        recorded(state, to).highest_mode_ever == to || recorded(state, to).highest_mode_ever
            == state.highest_mode_ever,
        recorded(state, to).policy_floor == state.policy_floor,
        recorded(state, to).pinned_ciphersuite == state.pinned_ciphersuite,
        recorded(recorded(state, to), to) == recorded(state, to),
        recorded(recorded(state, first), to).current_mode == to,
        recorded(recorded(state, first), to).highest_mode_ever == recorded(
            recorded(state, to),
            first,
        ).highest_mode_ever,
{
}

/// A refused change of the link record names the first rule that it breaks: the record
/// must not go away, its mode must not grow weaker, and neither suite may change.
pub proof fn refused_info_change_names_its_rule(
    old: Option<ApqInfoView>,
    new: Option<ApqInfoView>,
)
    ensures
        apq_info_change_verdict(old, new) is Err ==> old is Some,
        apq_info_change_verdict(old, new) == Err::<(), DowngradeError>(
            DowngradeError::ApqInfoRemoval,
        ) <==> old is Some && new is None,
        (old matches Some(o) && new matches Some(n)) ==> {
            let o = old->Some_0;
            let n = new->Some_0;
            match apq_info_change_verdict(old, new) {
                Ok(_) => true,
                Err(DowngradeError::ApqInfoModeDowngrade { old: a, new: b }) => a == o.mode && b
                    == n.mode && mode_rank(b) < mode_rank(a),
                Err(DowngradeError::ApqInfoCiphersuiteChange { old: a, new: b }) => a != b
                    && mode_rank(n.mode) >= mode_rank(o.mode) && if o.t_ciphersuite
                    != n.t_ciphersuite {
                    a == o.t_ciphersuite && b == n.t_ciphersuite
                } else {
                    a == o.pq_ciphersuite && b == n.pq_ciphersuite
                },
                Err(_) => false,
            }
        },
{
}

/// Two accepted changes of the link record in a row make one accepted change.
pub proof fn accepted_info_changes_chain(a: ApqInfoView, b: ApqInfoView, c: ApqInfoView)
    requires
        apq_info_change_verdict(Some(a), Some(b)) is Ok,
        apq_info_change_verdict(Some(b), Some(c)) is Ok,
    ensures
        apq_info_change_verdict(Some(a), Some(c)) is Ok,
{
}

/// `true` if two epochs are at most one apart.
pub open spec fn one_apart(a: u64, b: u64) -> bool {
    a <= b + 1 && b <= a + 1
}

/// Epochs are accepted exactly when the live ones are at most one apart, and the
/// recorded ones too where there is a record. A refusal names the pair that is too far
/// apart, and the live pair first.
pub proof fn epochs_accepted_iff_close(t_epoch: u64, pq_epoch: u64, info: Option<ApqInfoView>)
    ensures
        epoch_verdict(t_epoch, pq_epoch, info) is Ok <==> one_apart(t_epoch, pq_epoch) && (
        info matches Some(i) ==> one_apart(i.t_epoch, i.pq_epoch)),
        epoch_verdict(t_epoch, pq_epoch, info) matches Err(e) ==> e == (if !one_apart(
            t_epoch,
            pq_epoch,
        ) {
            DowngradeError::EpochMismatch { t_epoch, pq_epoch, max: 1 }
        } else {
            DowngradeError::EpochMismatch {
                t_epoch: info->Some_0.t_epoch,
                pq_epoch: info->Some_0.pq_epoch,
                max: 1,
            }
        }),
{
}

/// A suite is accepted exactly when no other one is pinned: without a pin every suite
/// is, and with one the pinned suite alone. A refusal tells both suites.
pub proof fn pin_admits_the_pinned_suite_alone(
    state: ConversationSecurityState,
    a: Ciphersuite,
    b: Ciphersuite,
)
    ensures
        state.pinned_ciphersuite is None ==> pin_verdict(state, a) is Ok,
        state.pinned_ciphersuite == Some(a) ==> pin_verdict(state, a) is Ok,
        state.pinned_ciphersuite == Some(a) && a != b ==> pin_verdict(state, b) == Err::<
            (),
            DowngradeError,
        >(DowngradeError::PinnedCiphersuiteChange { pinned: a, proposed: b }),
        state.pinned_ciphersuite is Some && pin_verdict(state, a) is Ok && pin_verdict(state, b) is
            Ok ==> a == b,
{
}

} // verus!
