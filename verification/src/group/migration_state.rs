//! The migration of one conversation, step by step.
//!
//! The state machine performs nothing itself. It fixes the order in which a
//! conversation is brought from `Classical` to a post-quantum mode:
//! `NotStarted`, `CapabilitiesCollected`, `KeyPackagesPublished`, `ModeSelected`,
//! `BootstrapInitiated`, `BootstrapComplete`, `FirstFullCommitDone`, `Operational`.
//! `Failed` can be entered from every state but the last. `Operational` and
//! `Failed` are final.
use crate::bytes::copy_bytes;
use crate::ciphersuite::security_mode::{mode_name, SecurityMode};
use crate::text::{format_variant, quote, quoted, variant_text};
use vstd::prelude::*;
use vstd::string::*;

verus! {

/// Where a conversation stands, in few words.
#[derive(Debug, PartialEq, Eq, Hash)]
pub enum ConversationLifecycle {
    /// Classical, and no migration under way.
    Classical,
    /// Every member can do post-quantum.
    UpgradeEligible,
    /// An upgrade has been proposed.
    UpgradeProposed,
    /// The upgrade is under way.
    UpgradeInProgress,
    /// The conversation runs under a post-quantum suite.
    PqActive,
    /// The paired sessions are being set up.
    ApqBootstrapping,
    /// The paired sessions are in use.
    ApqActive,
    /// The migration failed, for this reason.
    Failed(String),
}

/// A `ConversationLifecycle` with its reason as characters.
pub enum LifecycleView {
    /// See `ConversationLifecycle::Classical`.
    Classical,
    /// See `ConversationLifecycle::UpgradeEligible`.
    UpgradeEligible,
    /// See `ConversationLifecycle::UpgradeProposed`.
    UpgradeProposed,
    /// See `ConversationLifecycle::UpgradeInProgress`.
    UpgradeInProgress,
    /// See `ConversationLifecycle::PqActive`.
    PqActive,
    /// See `ConversationLifecycle::ApqBootstrapping`.
    ApqBootstrapping,
    /// See `ConversationLifecycle::ApqActive`.
    ApqActive,
    /// See `ConversationLifecycle::Failed`.
    Failed(Seq<char>),
}

impl View for ConversationLifecycle {
    type V = LifecycleView;

    open spec fn view(&self) -> LifecycleView {
        match self {
            ConversationLifecycle::Classical => LifecycleView::Classical,
            ConversationLifecycle::UpgradeEligible => LifecycleView::UpgradeEligible,
            ConversationLifecycle::UpgradeProposed => LifecycleView::UpgradeProposed,
            ConversationLifecycle::UpgradeInProgress => LifecycleView::UpgradeInProgress,
            ConversationLifecycle::PqActive => LifecycleView::PqActive,
            ConversationLifecycle::ApqBootstrapping => LifecycleView::ApqBootstrapping,
            ConversationLifecycle::ApqActive => LifecycleView::ApqActive,
            ConversationLifecycle::Failed(reason) => LifecycleView::Failed(reason@),
        }
    }
}

/// The states of a migration.
#[derive(Debug, PartialEq, Eq, Hash)]
pub enum MigrationState {
    /// Nothing has happened yet.
    NotStarted,
    /// The capabilities of every member are known.
    CapabilitiesCollected,
    /// Every member has published post-quantum key packages.
    KeyPackagesPublished,
    /// The target mode has been chosen.
    ModeSelected,
    /// The new sessions are being set up.
    BootstrapInitiated,
    /// The new sessions are set up.
    BootstrapComplete,
    /// The first FULL commit has landed on both sides.
    FirstFullCommitDone,
    /// Done.
    Operational,
    /// Failed, for this reason.
    Failed(String),
}

/// A `MigrationState` with its reason as characters.
pub enum MigrationStateView {
    /// See `MigrationState::NotStarted`.
    NotStarted,
    /// See `MigrationState::CapabilitiesCollected`.
    CapabilitiesCollected,
    /// See `MigrationState::KeyPackagesPublished`.
    KeyPackagesPublished,
    /// See `MigrationState::ModeSelected`.
    ModeSelected,
    /// See `MigrationState::BootstrapInitiated`.
    BootstrapInitiated,
    /// See `MigrationState::BootstrapComplete`.
    BootstrapComplete,
    /// See `MigrationState::FirstFullCommitDone`.
    FirstFullCommitDone,
    /// See `MigrationState::Operational`.
    Operational,
    /// See `MigrationState::Failed`.
    Failed(Seq<char>),
}

impl View for MigrationState {
    type V = MigrationStateView;

    open spec fn view(&self) -> MigrationStateView {
        match self {
            MigrationState::NotStarted => MigrationStateView::NotStarted,
            MigrationState::CapabilitiesCollected => MigrationStateView::CapabilitiesCollected,
            MigrationState::KeyPackagesPublished => MigrationStateView::KeyPackagesPublished,
            MigrationState::ModeSelected => MigrationStateView::ModeSelected,
            MigrationState::BootstrapInitiated => MigrationStateView::BootstrapInitiated,
            MigrationState::BootstrapComplete => MigrationStateView::BootstrapComplete,
            MigrationState::FirstFullCommitDone => MigrationStateView::FirstFullCommitDone,
            MigrationState::Operational => MigrationStateView::Operational,
            MigrationState::Failed(reason) => MigrationStateView::Failed(reason@),
        }
    }
}

impl Clone for MigrationState {
    fn clone(&self) -> (r: Self)
        ensures
            r@ == self@,
    {
        match self {
            MigrationState::NotStarted => MigrationState::NotStarted,
            MigrationState::CapabilitiesCollected => MigrationState::CapabilitiesCollected,
            MigrationState::KeyPackagesPublished => MigrationState::KeyPackagesPublished,
            MigrationState::ModeSelected => MigrationState::ModeSelected,
            MigrationState::BootstrapInitiated => MigrationState::BootstrapInitiated,
            MigrationState::BootstrapComplete => MigrationState::BootstrapComplete,
            MigrationState::FirstFullCommitDone => MigrationState::FirstFullCommitDone,
            MigrationState::Operational => MigrationState::Operational,
            MigrationState::Failed(reason) => MigrationState::Failed(reason.clone()),
        }
    }
}

/// What drives a migration on.
#[derive(Debug, PartialEq, Eq)]
pub enum MigrationEvent {
    /// The capabilities of every member have been collected.
    CapabilitiesReady,
    /// The key packages of every member have been published.
    KeyPackagesReady,
    /// This mode has been chosen.
    ModeSelected(SecurityMode),
    /// The set-up of the new sessions has begun.
    BootstrapStarted,
    /// The set-up of the new sessions has ended.
    BootstrapDone,
    /// The first FULL commit has landed.
    FirstFullCommitDone,
    /// Something failed, for this reason.
    Failed(String),
}

/// A `MigrationEvent` with its reason as characters.
pub enum MigrationEventView {
    /// See `MigrationEvent::CapabilitiesReady`.
    CapabilitiesReady,
    /// See `MigrationEvent::KeyPackagesReady`.
    KeyPackagesReady,
    /// See `MigrationEvent::ModeSelected`.
    ModeSelected(SecurityMode),
    /// See `MigrationEvent::BootstrapStarted`.
    BootstrapStarted,
    /// See `MigrationEvent::BootstrapDone`.
    BootstrapDone,
    /// See `MigrationEvent::FirstFullCommitDone`.
    FirstFullCommitDone,
    /// See `MigrationEvent::Failed`.
    Failed(Seq<char>),
}

impl View for MigrationEvent {
    type V = MigrationEventView;

    open spec fn view(&self) -> MigrationEventView {
        match self {
            MigrationEvent::CapabilitiesReady => MigrationEventView::CapabilitiesReady,
            MigrationEvent::KeyPackagesReady => MigrationEventView::KeyPackagesReady,
            MigrationEvent::ModeSelected(m) => MigrationEventView::ModeSelected(*m),
            MigrationEvent::BootstrapStarted => MigrationEventView::BootstrapStarted,
            MigrationEvent::BootstrapDone => MigrationEventView::BootstrapDone,
            MigrationEvent::FirstFullCommitDone => MigrationEventView::FirstFullCommitDone,
            MigrationEvent::Failed(reason) => MigrationEventView::Failed(reason@),
        }
    }
}

impl Clone for MigrationEvent {
    fn clone(&self) -> (r: Self)
        ensures
            r@ == self@,
    {
        match self {
            MigrationEvent::CapabilitiesReady => MigrationEvent::CapabilitiesReady,
            MigrationEvent::KeyPackagesReady => MigrationEvent::KeyPackagesReady,
            MigrationEvent::ModeSelected(m) => MigrationEvent::ModeSelected(*m),
            MigrationEvent::BootstrapStarted => MigrationEvent::BootstrapStarted,
            MigrationEvent::BootstrapDone => MigrationEvent::BootstrapDone,
            MigrationEvent::FirstFullCommitDone => MigrationEvent::FirstFullCommitDone,
            MigrationEvent::Failed(reason) => MigrationEvent::Failed(reason.clone()),
        }
    }
}

/// Why an event is refused.
#[derive(Debug, PartialEq, Eq)]
pub enum MigrationError {
    /// The event does not come next.
    InvalidTransition {
        /// The state.
        state: MigrationState,
        /// The refused event.
        event: MigrationEvent,
    },
    /// The state is final.
    Terminal {
        /// The state.
        state: MigrationState,
    },
}

/// A `MigrationError` over the views of what it holds.
pub enum MigrationErrorView {
    /// See `MigrationError::InvalidTransition`.
    InvalidTransition {
        /// The state.
        state: MigrationStateView,
        /// The refused event.
        event: MigrationEventView,
    },
    /// See `MigrationError::Terminal`.
    Terminal {
        /// The state.
        state: MigrationStateView,
    },
}

impl View for MigrationError {
    type V = MigrationErrorView;

    open spec fn view(&self) -> MigrationErrorView {
        match self {
            MigrationError::InvalidTransition {
                state,
                event,
            } => MigrationErrorView::InvalidTransition { state: state@, event: event@ },
            MigrationError::Terminal { state } => MigrationErrorView::Terminal { state: state@ },
        }
    }
}

/// `true` for the two final states.
pub open spec fn final_state(state: MigrationStateView) -> bool {
    state is Operational || state is Failed
}

/// The next state on the way to `Operational`, if the event leads there.
pub open spec fn forward(state: MigrationStateView, event: MigrationEventView) -> Option<
    MigrationStateView,
> {
    match (state, event) {
        (MigrationStateView::NotStarted, MigrationEventView::CapabilitiesReady) => Some(
            MigrationStateView::CapabilitiesCollected,
        ),
        (MigrationStateView::CapabilitiesCollected, MigrationEventView::KeyPackagesReady) => Some(
            MigrationStateView::KeyPackagesPublished,
        ),
        (MigrationStateView::KeyPackagesPublished, MigrationEventView::ModeSelected(_)) => Some(
            MigrationStateView::ModeSelected,
        ),
        (MigrationStateView::ModeSelected, MigrationEventView::BootstrapStarted) => Some(
            MigrationStateView::BootstrapInitiated,
        ),
        (MigrationStateView::BootstrapInitiated, MigrationEventView::BootstrapDone) => Some(
            MigrationStateView::BootstrapComplete,
        ),
        (MigrationStateView::BootstrapComplete, MigrationEventView::FirstFullCommitDone) => Some(
            MigrationStateView::FirstFullCommitDone,
        ),
        (MigrationStateView::FirstFullCommitDone, MigrationEventView::ModeSelected(_)) => None,
        (MigrationStateView::FirstFullCommitDone, _) => Some(MigrationStateView::Operational),
        _ => None,
    }
}

/// What becomes of an event in a state.
pub open spec fn transition(state: MigrationStateView, event: MigrationEventView) -> Result<
    MigrationStateView,
    MigrationErrorView,
> {
    if final_state(state) {
        Err(MigrationErrorView::Terminal { state })
    } else if let MigrationEventView::Failed(reason) = event {
        Ok(MigrationStateView::Failed(reason))
    } else {
        match forward(state, event) {
            Some(next) => Ok(next),
            None => Err(MigrationErrorView::InvalidTransition { state, event }),
        }
    }
}

/// The migration of one conversation.
#[derive(Debug, PartialEq, Eq)]
pub struct MigrationStateMachine {
    state: MigrationState,
    conversation_id: Vec<u8>,
    target_mode: Option<SecurityMode>,
    started_at: Option<u64>,
    last_transition_at: Option<u64>,
}

/// The contents of a `MigrationStateMachine`.
#[verifier::ext_equal]
pub struct MigrationMachineView {
    /// The state.
    pub state: MigrationStateView,
    /// The conversation.
    pub conversation_id: Seq<u8>,
    /// The mode that was chosen, if any.
    pub target_mode: Option<SecurityMode>,
    /// When `NotStarted` was left.
    pub started_at: Option<u64>,
    /// When the state last changed.
    pub last_transition_at: Option<u64>,
}

impl View for MigrationStateMachine {
    type V = MigrationMachineView;

    closed spec fn view(&self) -> MigrationMachineView {
        MigrationMachineView {
            state: self.state@,
            conversation_id: self.conversation_id@,
            target_mode: self.target_mode,
            started_at: self.started_at,
            last_transition_at: self.last_transition_at,
        }
    }
}

/// A machine before its first event.
pub open spec fn fresh_machine(conversation_id: Seq<u8>) -> MigrationMachineView {
    MigrationMachineView {
        state: MigrationStateView::NotStarted,
        conversation_id,
        target_mode: None,
        started_at: None,
        last_transition_at: None,
    }
}

/// The machine after an event at a time. A refused event changes nothing.
pub open spec fn machine_after(
    m: MigrationMachineView,
    event: MigrationEventView,
    at_ns: u64,
) -> MigrationMachineView {
    match transition(m.state, event) {
        Err(_) => m,
        Ok(next) => MigrationMachineView {
            state: next,
            conversation_id: m.conversation_id,
            target_mode: match event {
                MigrationEventView::ModeSelected(mode) => Some(mode),
                _ => m.target_mode,
            },
            started_at: if m.state is NotStarted && m.started_at is None {
                Some(at_ns)
            } else {
                m.started_at
            },
            last_transition_at: Some(at_ns),
        },
    }
}

/// `true` if the target mode is one that runs paired sessions.
pub open spec fn targets_apq(m: MigrationMachineView) -> bool {
    m.target_mode == Some(SecurityMode::PqConfidentiality) || m.target_mode == Some(
        SecurityMode::PqAuthenticity,
    )
}

/// Where the conversation of a machine stands.
pub open spec fn lifecycle_of(m: MigrationMachineView) -> LifecycleView {
    match m.state {
        MigrationStateView::NotStarted => LifecycleView::Classical,
        MigrationStateView::CapabilitiesCollected => LifecycleView::UpgradeEligible,
        MigrationStateView::KeyPackagesPublished => LifecycleView::UpgradeProposed,
        MigrationStateView::ModeSelected => LifecycleView::UpgradeProposed,
        MigrationStateView::BootstrapInitiated => if targets_apq(m) {
            LifecycleView::ApqBootstrapping
        } else {
            LifecycleView::UpgradeInProgress
        },
        MigrationStateView::BootstrapComplete => if targets_apq(m) {
            LifecycleView::ApqBootstrapping
        } else {
            LifecycleView::PqActive
        },
        MigrationStateView::FirstFullCommitDone => if targets_apq(m) {
            LifecycleView::ApqBootstrapping
        } else {
            LifecycleView::PqActive
        },
        MigrationStateView::Operational => if targets_apq(m) {
            LifecycleView::ApqActive
        } else {
            LifecycleView::PqActive
        },
        MigrationStateView::Failed(reason) => LifecycleView::Failed(reason),
    }
}

impl ConversationLifecycle {
    /// Where the conversation of a machine stands.
    pub fn from_state_machine(sm: &MigrationStateMachine) -> (r: Self)
        ensures
            r@ == lifecycle_of(sm@),
    {
        let target_is_apq = matches!(
            sm.target_mode(),
            Some(SecurityMode::PqConfidentiality) | Some(SecurityMode::PqAuthenticity)
        );
        match sm.state() {
            MigrationState::NotStarted => ConversationLifecycle::Classical,
            MigrationState::CapabilitiesCollected => ConversationLifecycle::UpgradeEligible,
            MigrationState::KeyPackagesPublished | MigrationState::ModeSelected => {
                ConversationLifecycle::UpgradeProposed
            },
            MigrationState::BootstrapInitiated => {
                if target_is_apq {
                    ConversationLifecycle::ApqBootstrapping
                } else {
                    ConversationLifecycle::UpgradeInProgress
                }
            },
            MigrationState::BootstrapComplete | MigrationState::FirstFullCommitDone => {
                if target_is_apq {
                    ConversationLifecycle::ApqBootstrapping
                } else {
                    ConversationLifecycle::PqActive
                }
            },
            MigrationState::Operational => {
                if target_is_apq {
                    ConversationLifecycle::ApqActive
                } else {
                    ConversationLifecycle::PqActive
                }
            },
            MigrationState::Failed(reason) => ConversationLifecycle::Failed(reason.clone()),
        }
    }
}

impl MigrationStateMachine {
    /// A machine that has seen no event.
    pub fn new(conversation_id: Vec<u8>) -> (r: Self)
        ensures
            r@ == fresh_machine(conversation_id@),
    {
        MigrationStateMachine {
            state: MigrationState::NotStarted,
            conversation_id,
            target_mode: None,
            started_at: None,
            last_transition_at: None,
        }
    }

    /// The state.
    pub fn state(&self) -> (r: &MigrationState)
        ensures
            r@ == self@.state,
    {
        &self.state
    }

    /// The conversation.
    pub fn conversation_id(&self) -> (r: &[u8])
        ensures
            r@ == self@.conversation_id,
    {
        self.conversation_id.as_slice()
    }

    /// The mode that was chosen, if any.
    pub fn target_mode(&self) -> (r: Option<SecurityMode>)
        ensures
            r == self@.target_mode,
    {
        self.target_mode
    }

    /// When `NotStarted` was left.
    pub fn started_at(&self) -> (r: Option<u64>)
        ensures
            r == self@.started_at,
    {
        self.started_at
    }

    /// When the state last changed.
    pub fn last_transition_at(&self) -> (r: Option<u64>)
        ensures
            r == self@.last_transition_at,
    {
        self.last_transition_at
    }

    /// Whether the state is final.
    pub fn is_terminal(&self) -> (r: bool)
        ensures
            r == final_state(self@.state),
    {
        matches!(self.state, MigrationState::Operational | MigrationState::Failed(_))
    }

    /// Whether `advance` would accept the event.
    pub fn can_advance(&self, event: &MigrationEvent) -> (r: bool)
        ensures
            r == transition(self@.state, event@) is Ok,
    {
        Self::next_state(&self.state, event).is_ok()
    }

    /// Applies an event at time 0 and returns the new state.
    pub fn advance(&mut self, event: MigrationEvent) -> (r: Result<MigrationState, MigrationError>)
        ensures
            match (r, transition(old(self)@.state, event@)) {
                (Ok(s), Ok(t)) => s@ == t,
                (Err(e), Err(f)) => e@ == f,
                _ => false,
            },
            final(self)@ == machine_after(old(self)@, event@, 0),
    {
        self.advance_at(event, 0)
    }

    /// Applies an event at the given time and returns the new state.
    pub fn advance_at(&mut self, event: MigrationEvent, at_ns: u64) -> (r: Result<
        MigrationState,
        MigrationError,
    >)
        ensures
            match (r, transition(old(self)@.state, event@)) {
                (Ok(s), Ok(t)) => s@ == t,
                (Err(e), Err(f)) => e@ == f,
                _ => false,
            },
            final(self)@ == machine_after(old(self)@, event@, at_ns),
    {
        let next = match Self::next_state(&self.state, &event) {
            Ok(next) => next,
            Err(e) => {
                return Err(e);
            },
        };
        if let MigrationEvent::ModeSelected(m) = &event {
            self.target_mode = Some(*m);
        }
        if matches!(self.state, MigrationState::NotStarted) && self.started_at.is_none() {
            self.started_at = Some(at_ns);
        }
        self.last_transition_at = Some(at_ns);
        self.state = next.clone();
        Ok(next)
    }

    /// What becomes of an event in a state.
    fn next_state(state: &MigrationState, event: &MigrationEvent) -> (r: Result<
        MigrationState,
        MigrationError,
    >)
        ensures
            match (r, transition(state@, event@)) {
                (Ok(s), Ok(t)) => s@ == t,
                (Err(e), Err(f)) => e@ == f,
                _ => false,
            },
    {
        if matches!(state, MigrationState::Operational | MigrationState::Failed(_)) {
            return Err(MigrationError::Terminal { state: state.clone() });
        }
        if let MigrationEvent::Failed(reason) = event {
            return Ok(MigrationState::Failed(reason.clone()));
        }
        match (state, event) {
            (MigrationState::NotStarted, MigrationEvent::CapabilitiesReady) => {
                Ok(MigrationState::CapabilitiesCollected)
            },
            (MigrationState::CapabilitiesCollected, MigrationEvent::KeyPackagesReady) => {
                Ok(MigrationState::KeyPackagesPublished)
            },
            (MigrationState::KeyPackagesPublished, MigrationEvent::ModeSelected(_)) => {
                Ok(MigrationState::ModeSelected)
            },
            (MigrationState::ModeSelected, MigrationEvent::BootstrapStarted) => {
                Ok(MigrationState::BootstrapInitiated)
            },
            (MigrationState::BootstrapInitiated, MigrationEvent::BootstrapDone) => {
                Ok(MigrationState::BootstrapComplete)
            },
            (MigrationState::BootstrapComplete, MigrationEvent::FirstFullCommitDone) => {
                Ok(MigrationState::FirstFullCommitDone)
            },
            (MigrationState::FirstFullCommitDone, MigrationEvent::ModeSelected(_)) => {
                Err(
                    MigrationError::InvalidTransition {
                        state: state.clone(),
                        event: event.clone(),
                    },
                )
            },
            (MigrationState::FirstFullCommitDone, _) => Ok(MigrationState::Operational),
            (s, e) => Err(
                MigrationError::InvalidTransition { state: s.clone(), event: e.clone() },
            ),
        }
    }
}

impl Clone for MigrationStateMachine {
    fn clone(&self) -> (r: Self)
        ensures
            r@ == self@,
    {
        MigrationStateMachine {
            state: self.state.clone(),
            conversation_id: copy_bytes(self.conversation_id.as_slice()),
            target_mode: self.target_mode,
            started_at: self.started_at,
            last_transition_at: self.last_transition_at,
        }
    }
}

/// How many steps lie behind a state on the way to `Operational`.
pub open spec fn stage(state: MigrationStateView) -> int {
    match state {
        MigrationStateView::NotStarted => 0,
        MigrationStateView::CapabilitiesCollected => 1,
        MigrationStateView::KeyPackagesPublished => 2,
        MigrationStateView::ModeSelected => 3,
        MigrationStateView::BootstrapInitiated => 4,
        MigrationStateView::BootstrapComplete => 5,
        MigrationStateView::FirstFullCommitDone => 6,
        MigrationStateView::Operational => 7,
        MigrationStateView::Failed(_) => 7,
    }
}

/// What holds of every machine that was reached by events: the times are set
/// exactly from the first transition on, and a state that follows the choice of
/// the mode has a target mode, while one that precedes it has none.
pub open spec fn machine_consistent(m: MigrationMachineView) -> bool {
    &&& m.state is NotStarted <==> m.started_at is None
    &&& m.state is NotStarted <==> m.last_transition_at is None
    &&& !(m.state is Failed) && stage(m.state) >= 3 ==> m.target_mode is Some
    &&& stage(m.state) < 3 ==> m.target_mode is None
}

/// A fresh machine is consistent, and every event keeps a machine so.
pub proof fn events_keep_machines_consistent(
    conversation_id: Seq<u8>,
    m: MigrationMachineView,
    event: MigrationEventView,
    at_ns: u64,
)
    requires
        machine_consistent(m),
    ensures
        machine_consistent(fresh_machine(conversation_id)),
        machine_consistent(machine_after(m, event, at_ns)),
{
}

/// A final state refuses every event, and the machine stays as it is.
pub proof fn final_states_absorb(
    m: MigrationMachineView,
    event: MigrationEventView,
    at_ns: u64,
)
    requires
        final_state(m.state),
    ensures
        transition(m.state, event) == Err::<MigrationStateView, MigrationErrorView>(
            MigrationErrorView::Terminal { state: m.state },
        ),
        machine_after(m, event, at_ns) == m,
{
}

/// Every state that is not final can fail.
pub proof fn every_open_state_can_fail(state: MigrationStateView, reason: Seq<char>)
    requires
        !final_state(state),
    ensures
        transition(state, MigrationEventView::Failed(reason)) == Ok::<
            MigrationStateView,
            MigrationErrorView,
        >(MigrationStateView::Failed(reason)),
{
}

/// An accepted event that is no failure moves the machine by exactly one step:
/// none is skipped, and none is taken back.
pub proof fn steps_are_taken_one_by_one(state: MigrationStateView, event: MigrationEventView)
    requires
        !(event is Failed),
        transition(state, event) is Ok,
    ensures
        stage(transition(state, event)->Ok_0) == stage(state) + 1,
        !(transition(state, event)->Ok_0 is Failed),
{
}

/// From a state before `FirstFullCommitDone` only one kind of event leads on, and to
/// one state. From `FirstFullCommitDone` every event leads on but a choice of mode.
pub proof fn each_step_has_its_event(
    state: MigrationStateView,
    a: MigrationEventView,
    b: MigrationEventView,
)
    ensures
        stage(state) < 6 && forward(state, a) is Some && forward(state, b) is Some ==> forward(
            state,
            a,
        ) == forward(state, b) && (a == b || (a is ModeSelected && b is ModeSelected)),
        state is FirstFullCommitDone ==> (transition(state, a) is Ok <==> !(a is ModeSelected)),
{
}

/// Once chosen, the target mode stays.
pub proof fn target_mode_is_chosen_once(
    m: MigrationMachineView,
    event: MigrationEventView,
    at_ns: u64,
)
    requires
        machine_consistent(m),
        m.target_mode is Some,
    ensures
        machine_after(m, event, at_ns).target_mode == m.target_mode,
{
}

/// What `Debug` writes for a state.
pub open spec fn state_text(state: MigrationStateView) -> Seq<char> {
    match state {
        MigrationStateView::NotStarted => "NotStarted"@,
        MigrationStateView::CapabilitiesCollected => "CapabilitiesCollected"@,
        MigrationStateView::KeyPackagesPublished => "KeyPackagesPublished"@,
        MigrationStateView::ModeSelected => "ModeSelected"@,
        MigrationStateView::BootstrapInitiated => "BootstrapInitiated"@,
        MigrationStateView::BootstrapComplete => "BootstrapComplete"@,
        MigrationStateView::FirstFullCommitDone => "FirstFullCommitDone"@,
        MigrationStateView::Operational => "Operational"@,
        MigrationStateView::Failed(reason) => variant_text("Failed"@, quoted(reason)),
    }
}

impl MigrationState {
    /// What `Debug` writes for the state.
    pub fn text(&self) -> (r: String)
        ensures
            r@ == state_text(self@),
    {
        match self {
            MigrationState::NotStarted => "NotStarted".to_owned(),
            MigrationState::CapabilitiesCollected => "CapabilitiesCollected".to_owned(),
            MigrationState::KeyPackagesPublished => "KeyPackagesPublished".to_owned(),
            MigrationState::ModeSelected => "ModeSelected".to_owned(),
            MigrationState::BootstrapInitiated => "BootstrapInitiated".to_owned(),
            MigrationState::BootstrapComplete => "BootstrapComplete".to_owned(),
            MigrationState::FirstFullCommitDone => "FirstFullCommitDone".to_owned(),
            MigrationState::Operational => "Operational".to_owned(),
            MigrationState::Failed(reason) => format_variant(
                "Failed",
                quote(reason.as_str()).as_str(),
            ),
        }
    }
}

/// What `Debug` writes for an event.
pub open spec fn event_text(event: MigrationEventView) -> Seq<char> {
    match event {
        MigrationEventView::CapabilitiesReady => "CapabilitiesReady"@,
        MigrationEventView::KeyPackagesReady => "KeyPackagesReady"@,
        MigrationEventView::BootstrapStarted => "BootstrapStarted"@,
        MigrationEventView::BootstrapDone => "BootstrapDone"@,
        MigrationEventView::FirstFullCommitDone => "FirstFullCommitDone"@,
        MigrationEventView::ModeSelected(mode) => variant_text("ModeSelected"@, mode_name(mode)),
        MigrationEventView::Failed(reason) => variant_text("Failed"@, quoted(reason)),
    }
}

impl MigrationEvent {
    /// What `Debug` writes for the event.
    pub fn text(&self) -> (r: String)
        ensures
            r@ == event_text(self@),
    {
        match self {
            MigrationEvent::CapabilitiesReady => "CapabilitiesReady".to_owned(),
            MigrationEvent::KeyPackagesReady => "KeyPackagesReady".to_owned(),
            MigrationEvent::BootstrapStarted => "BootstrapStarted".to_owned(),
            MigrationEvent::BootstrapDone => "BootstrapDone".to_owned(),
            MigrationEvent::FirstFullCommitDone => "FirstFullCommitDone".to_owned(),
            MigrationEvent::ModeSelected(mode) => format_variant("ModeSelected", mode.name()),
            MigrationEvent::Failed(reason) => format_variant(
                "Failed",
                quote(reason.as_str()).as_str(),
            ),
        }
    }
}

/// The text of an error.
pub open spec fn migration_error_text(e: MigrationErrorView) -> Seq<char> {
    match e {
        MigrationErrorView::InvalidTransition { state, event } =>
            "invalid transition: cannot apply event "@ + event_text(event) + " from state "@
            + state_text(state),
        MigrationErrorView::Terminal { state } => "cannot advance from terminal state "@
            + state_text(state),
    }
}

impl MigrationError {
    /// The text of the error.
    pub fn message(&self) -> (r: String)
        ensures
            r@ == migration_error_text(self@),
    {
        match self {
            MigrationError::InvalidTransition { state, event } => {
                let mut text: String = "invalid transition: cannot apply event ".to_owned();
                text.append(event.text().as_str());
                text.append(" from state ");
                text.append(state.text().as_str());
                text
            },
            MigrationError::Terminal { state } => {
                let mut text: String = "cannot advance from terminal state ".to_owned();
                text.append(state.text().as_str());
                text
            },
        }
    }
}

/// With a target of `PqConfidentiality` or `PqAuthenticity` the paired sessions are
/// reported as in use exactly when the migration is done, and as being set up exactly
/// from the start of the set-up until then.
pub proof fn paired_sessions_are_active_only_when_done(m: MigrationMachineView)
    requires
        m.target_mode == Some(SecurityMode::PqConfidentiality) || m.target_mode == Some(
            SecurityMode::PqAuthenticity,
        ),
    ensures
        lifecycle_of(m) is ApqActive <==> m.state is Operational,
        lifecycle_of(m) is ApqBootstrapping <==> m.state is BootstrapInitiated || m.state is
            BootstrapComplete || m.state is FirstFullCommitDone,
        !(lifecycle_of(m) is PqActive) && !(lifecycle_of(m) is UpgradeInProgress),
{
}

/// Without such a target no paired sessions are reported. The upgrade is under way
/// exactly while the new session is set up, and the conversation is reported as
/// post-quantum exactly from the end of the set-up on.
pub proof fn single_session_is_active_once_set_up(m: MigrationMachineView)
    requires
        m.target_mode is None || m.target_mode == Some(SecurityMode::Classical),
    ensures
        lifecycle_of(m) is UpgradeInProgress <==> m.state is BootstrapInitiated,
        lifecycle_of(m) is PqActive <==> m.state is BootstrapComplete || m.state is
            FirstFullCommitDone || m.state is Operational,
        !(lifecycle_of(m) is ApqActive) && !(lifecycle_of(m) is ApqBootstrapping),
{
}

/// Before the set-up, and after a failure, the target does not matter: a conversation is
/// classical exactly before the first event, eligible once the capabilities are known,
/// proposed until the set-up begins, and failed for the very reason of the migration.
pub proof fn early_and_failed_lifecycles(m: MigrationMachineView)
    ensures
        lifecycle_of(m) is Classical <==> m.state is NotStarted,
        lifecycle_of(m) is UpgradeEligible <==> m.state is CapabilitiesCollected,
        lifecycle_of(m) is UpgradeProposed <==> m.state is KeyPackagesPublished || m.state is
            ModeSelected,
        lifecycle_of(m) is Failed <==> m.state is Failed,
        m.state matches MigrationStateView::Failed(reason) ==> lifecycle_of(m)
            == LifecycleView::Failed(reason),
{
}

/// Each state before the last step is left by one event: the capabilities, the key
/// packages, the choice of the mode, the start and the end of the set-up, and the first
/// FULL commit, in this order. Each leads to the state that tells of it.
pub proof fn each_event_has_its_place(state: MigrationStateView, event: MigrationEventView)
    requires
        !(event is Failed),
        !final_state(state),
        !(state is FirstFullCommitDone),
    ensures
        transition(state, event) is Ok <==> match event {
            MigrationEventView::CapabilitiesReady => state is NotStarted,
            MigrationEventView::KeyPackagesReady => state is CapabilitiesCollected,
            MigrationEventView::ModeSelected(_) => state is KeyPackagesPublished,
            MigrationEventView::BootstrapStarted => state is ModeSelected,
            MigrationEventView::BootstrapDone => state is BootstrapInitiated,
            MigrationEventView::FirstFullCommitDone => state is BootstrapComplete,
            MigrationEventView::Failed(_) => false,
        },
        transition(state, event) matches Ok(next) ==> match event {
            MigrationEventView::CapabilitiesReady => next is CapabilitiesCollected,
            MigrationEventView::KeyPackagesReady => next is KeyPackagesPublished,
            MigrationEventView::ModeSelected(_) => next is ModeSelected,
            MigrationEventView::BootstrapStarted => next is BootstrapInitiated,
            MigrationEventView::BootstrapDone => next is BootstrapComplete,
            MigrationEventView::FirstFullCommitDone => next is FirstFullCommitDone,
            MigrationEventView::Failed(_) => false,
        },
{
}

/// After the first FULL commit every further event but a choice of mode and a failure
/// makes the migration operational, and no other way leads there.
pub proof fn operational_comes_after_the_first_full_commit(
    state: MigrationStateView,
    event: MigrationEventView,
)
    ensures
        transition(state, event) == Ok::<MigrationStateView, MigrationErrorView>(
            MigrationStateView::Operational,
        ) <==> state is FirstFullCommitDone && !(event is ModeSelected) && !(event is Failed),
{
}

/// `Operational` and `Failed` are final and no other state is. A refusal by a final state
/// says so, and every other refusal names the state and the event.
pub proof fn refusals_name_state_and_event(state: MigrationStateView, event: MigrationEventView)
    ensures
        final_state(state) <==> state is Operational || state is Failed,
        match transition(state, event) {
            Ok(_) => !(state is Operational) && !(state is Failed),
            Err(MigrationErrorView::Terminal { state: s }) => s == state && (state is Operational
                || state is Failed),
            Err(MigrationErrorView::InvalidTransition { state: s, event: e }) => s == state && e
                == event && !(state is Operational) && !(state is Failed) && !(event is Failed),
        },
{
}

/// An accepted event sets the time of the last change, and that of the start if it is
/// the first one. It keeps the conversation, and it changes the target mode only if it
/// chooses one. A refused event changes nothing.
pub proof fn accepted_events_are_recorded(
    m: MigrationMachineView,
    event: MigrationEventView,
    at_ns: u64,
)
    ensures
        transition(m.state, event) is Err ==> machine_after(m, event, at_ns) == m,
        transition(m.state, event) matches Ok(next) ==> {
            let after = machine_after(m, event, at_ns);
            &&& after.state == next
            &&& after.conversation_id == m.conversation_id
            &&& after.last_transition_at == Some(at_ns)
            &&& m.started_at is Some ==> after.started_at == m.started_at
            &&& m.state is NotStarted && m.started_at is None ==> after.started_at == Some(at_ns)
            &&& event matches MigrationEventView::ModeSelected(mode) ==> after.target_mode == Some(
                mode,
            )
            &&& !(event is ModeSelected) ==> after.target_mode == m.target_mode
        },
{
}

} // verus!
