//! Bringing a client's storage to the current schema.
//!
//! The migration runs in steps, in a fixed order. A marker in the storage names
//! the next step. It is written before each step, so that a client that stops in
//! the middle goes on where it stopped.
use crate::text::{format_variant, quote, quoted, variant_text};
use vstd::prelude::*;
use vstd::string::*;

verus! {

/// A step of the migration.
#[derive(Debug, Clone, Copy, PartialEq, Eq, Hash, Structural)]
pub enum MigrationStep {
    /// The state of the MLS groups.
    MigrateGroupState,
    /// The records that link the sessions of a conversation.
    MigrateApqInfo,
    /// The table from conversations to MLS groups.
    MigrateConversationMapping,
    /// The stored pre-shared keys.
    MigratePskMaterial,
    /// The counters of FULL and PARTIAL commits.
    MigrateCommitCounters,
    /// The security states of the conversations.
    MigrateAntiDowngradeState,
}

/// All steps, in the order in which they run.
pub open spec fn plan() -> Seq<MigrationStep> {
    seq![
        MigrationStep::MigrateGroupState,
        MigrationStep::MigrateApqInfo,
        MigrationStep::MigrateConversationMapping,
        MigrationStep::MigratePskMaterial,
        MigrationStep::MigrateCommitCounters,
        MigrationStep::MigrateAntiDowngradeState,
    ]
}

/// The place of a step in the plan.
pub open spec fn step_index(step: MigrationStep) -> int {
    match step {
        MigrationStep::MigrateGroupState => 0,
        MigrationStep::MigrateApqInfo => 1,
        MigrationStep::MigrateConversationMapping => 2,
        MigrationStep::MigratePskMaterial => 3,
        MigrationStep::MigrateCommitCounters => 4,
        MigrationStep::MigrateAntiDowngradeState => 5,
    }
}

/// The step that comes next, if there is one.
pub open spec fn next_step(step: MigrationStep) -> Option<MigrationStep> {
    if step_index(step) + 1 < plan().len() {
        Some(plan()[step_index(step) + 1])
    } else {
        None
    }
}

impl MigrationStep {
    /// All steps, in the order in which they run.
    pub fn all() -> (r: Vec<MigrationStep>)
        ensures
            r@ == plan(),
    {
        let mut steps: Vec<MigrationStep> = Vec::new();
        steps.push(MigrationStep::MigrateGroupState);
        steps.push(MigrationStep::MigrateApqInfo);
        steps.push(MigrationStep::MigrateConversationMapping);
        steps.push(MigrationStep::MigratePskMaterial);
        steps.push(MigrationStep::MigrateCommitCounters);
        steps.push(MigrationStep::MigrateAntiDowngradeState);
        assert(steps@ =~= plan());
        steps
    }

    /// The place of the step in the plan.
    pub fn index(self) -> (r: usize)
        ensures
            r == step_index(self),
            r < plan().len(),
            plan()[r as int] == self,
    {
        match self {
            MigrationStep::MigrateGroupState => 0,
            MigrationStep::MigrateApqInfo => 1,
            MigrationStep::MigrateConversationMapping => 2,
            MigrationStep::MigratePskMaterial => 3,
            MigrationStep::MigrateCommitCounters => 4,
            MigrationStep::MigrateAntiDowngradeState => 5,
        }
    }

    /// The step that comes next, if there is one.
    pub fn next(self) -> (r: Option<MigrationStep>)
        ensures
            r == next_step(self),
    {
        let steps = MigrationStep::all();
        let following: usize = self.index() + 1;
        if following < steps.len() {
            Some(steps[following])
        } else {
            None
        }
    }
}

/// The marker that a storage keeps.
#[derive(Debug, PartialEq, Eq)]
pub enum StorageMigrationState {
    /// Nothing has been tried yet.
    NotStarted,
    /// This step comes next.
    InProgress(MigrationStep),
    /// Every step has run.
    Complete,
    /// A step failed, for this reason.
    Failed(String),
}

/// A `StorageMigrationState` with its reason as characters.
pub enum MarkerView {
    /// See `StorageMigrationState::NotStarted`.
    NotStarted,
    /// See `StorageMigrationState::InProgress`.
    InProgress(MigrationStep),
    /// See `StorageMigrationState::Complete`.
    Complete,
    /// See `StorageMigrationState::Failed`.
    Failed(Seq<char>),
}

impl View for StorageMigrationState {
    type V = MarkerView;

    open spec fn view(&self) -> MarkerView {
        match self {
            StorageMigrationState::NotStarted => MarkerView::NotStarted,
            StorageMigrationState::InProgress(step) => MarkerView::InProgress(*step),
            StorageMigrationState::Complete => MarkerView::Complete,
            StorageMigrationState::Failed(reason) => MarkerView::Failed(reason@),
        }
    }
}

impl Clone for StorageMigrationState {
    fn clone(&self) -> (r: Self)
        ensures
            r@ == self@,
    {
        match self {
            StorageMigrationState::NotStarted => StorageMigrationState::NotStarted,
            StorageMigrationState::InProgress(step) => StorageMigrationState::InProgress(*step),
            StorageMigrationState::Complete => StorageMigrationState::Complete,
            StorageMigrationState::Failed(reason) => StorageMigrationState::Failed(reason.clone()),
        }
    }
}

impl StorageMigrationState {
    /// Whether nothing more happens from here: the migration is complete or has
    /// failed.
    pub fn is_terminal(&self) -> (r: bool)
        ensures
            r == (self@ is Complete || self@ is Failed),
    {
        matches!(self, StorageMigrationState::Complete | StorageMigrationState::Failed(_))
    }
}

/// Why a migration stopped.
#[derive(Debug, PartialEq, Eq)]
pub enum MigrationError {
    /// A step failed.
    StepFailed {
        /// The step.
        step: MigrationStep,
        /// The reason that the storage gave.
        reason: String,
    },
    /// The marker could not be written.
    PersistenceFailed {
        /// The reason that the storage gave.
        reason: String,
    },
    /// An earlier migration failed.
    PreviouslyFailed {
        /// The reason in the marker.
        reason: String,
    },
}

/// A `MigrationError` with its reason as characters.
pub enum MigrationErrorView {
    /// See `MigrationError::StepFailed`.
    StepFailed {
        /// The step.
        step: MigrationStep,
        /// The reason.
        reason: Seq<char>,
    },
    /// See `MigrationError::PersistenceFailed`.
    PersistenceFailed {
        /// The reason.
        reason: Seq<char>,
    },
    /// See `MigrationError::PreviouslyFailed`.
    PreviouslyFailed {
        /// The reason.
        reason: Seq<char>,
    },
}

impl View for MigrationError {
    type V = MigrationErrorView;

    open spec fn view(&self) -> MigrationErrorView {
        match self {
            MigrationError::StepFailed { step, reason } => MigrationErrorView::StepFailed {
                step: *step,
                reason: reason@,
            },
            MigrationError::PersistenceFailed { reason } => MigrationErrorView::PersistenceFailed {
                reason: reason@,
            },
            MigrationError::PreviouslyFailed { reason } => MigrationErrorView::PreviouslyFailed {
                reason: reason@,
            },
        }
    }
}

/// Why a migrated storage is not accepted.
#[derive(Debug, PartialEq, Eq)]
pub enum MigrationValidationError {
    /// The migration is not complete.
    NotComplete {
        /// The marker.
        state: StorageMigrationState,
    },
    /// What a step should have brought about is missing.
    InvariantBroken {
        /// The step.
        step: MigrationStep,
    },
}

/// A `MigrationValidationError` over the view of its marker.
pub enum ValidationErrorView {
    /// See `MigrationValidationError::NotComplete`.
    NotComplete {
        /// The marker.
        state: MarkerView,
    },
    /// See `MigrationValidationError::InvariantBroken`.
    InvariantBroken {
        /// The step.
        step: MigrationStep,
    },
}

impl View for MigrationValidationError {
    type V = ValidationErrorView;

    open spec fn view(&self) -> ValidationErrorView {
        match self {
            MigrationValidationError::NotComplete { state } => ValidationErrorView::NotComplete {
                state: state@,
            },
            MigrationValidationError::InvariantBroken {
                step,
            } => ValidationErrorView::InvariantBroken { step: *step },
        }
    }
}

/// What a storage answers to a call.
pub enum Answer {
    /// The call succeeded.
    Done,
    /// The call failed, for this reason.
    Refused(Seq<char>),
}

/// The answer in a result.
pub open spec fn reply(r: Result<(), String>) -> Answer {
    match r {
        Ok(_) => Answer::Done,
        Err(reason) => Answer::Refused(reason@),
    }
}

/// A call that changed a storage, with the storage's answer.
pub enum StorageCall {
    /// The marker was to be written.
    Persist {
        /// The marker.
        marker: MarkerView,
        /// The answer.
        answer: Answer,
    },
    /// A step was to be run.
    Migrate {
        /// The step.
        step: MigrationStep,
        /// The answer.
        answer: Answer,
    },
}

/// A storage that can be migrated. Each `migrate_*` may run more than once, and
/// has to leave alone what is already in the current schema.
///
/// The contracts speak of the marker that the storage would report, of the steps
/// whose outcome it reports as present, and of the calls that it has received so
/// far. They promise of no call that it succeeds.
pub trait MigrationStorage {
    /// The marker that `read_state` reports.
    open spec fn marker(&self) -> MarkerView {
        arbitrary()
    }

    /// Whether the outcome of a step is reported as present.
    open spec fn present(&self, step: MigrationStep) -> bool {
        arbitrary()
    }

    /// The calls received so far, in order.
    open spec fn calls(&self) -> Seq<StorageCall> {
        arbitrary()
    }

    /// Reports the marker.
    fn read_state(&self) -> (r: StorageMigrationState)
        ensures
            r@ == self.marker(),
    ;

    /// Writes the marker.
    fn persist_state(&mut self, state: &StorageMigrationState) -> (r: Result<(), String>)
        ensures
            final(self).calls() == old(self).calls().push(
                StorageCall::Persist { marker: state@, answer: reply(r) },
            ),
            r is Ok ==> final(self).marker() == state@,
    ;

    /// Brings the state of the MLS groups to the current schema.
    fn migrate_group_state(&mut self) -> (r: Result<(), String>)
        ensures
            final(self).calls() == old(self).calls().push(
                StorageCall::Migrate {
                    step: MigrationStep::MigrateGroupState,
                    answer: reply(r),
                },
            ),
    ;

    /// Brings the link records to the current schema.
    fn migrate_apq_info(&mut self) -> (r: Result<(), String>)
        ensures
            final(self).calls() == old(self).calls().push(
                StorageCall::Migrate { step: MigrationStep::MigrateApqInfo, answer: reply(r) },
            ),
    ;

    /// Brings the table of conversations to the current schema.
    fn migrate_conversation_mapping(&mut self) -> (r: Result<(), String>)
        ensures
            final(self).calls() == old(self).calls().push(
                StorageCall::Migrate {
                    step: MigrationStep::MigrateConversationMapping,
                    answer: reply(r),
                },
            ),
    ;

    /// Brings the pre-shared keys to the current schema.
    fn migrate_psk_material(&mut self) -> (r: Result<(), String>)
        ensures
            final(self).calls() == old(self).calls().push(
                StorageCall::Migrate {
                    step: MigrationStep::MigratePskMaterial,
                    answer: reply(r),
                },
            ),
    ;

    /// Brings the counters of commits to the current schema.
    fn migrate_commit_counters(&mut self) -> (r: Result<(), String>)
        ensures
            final(self).calls() == old(self).calls().push(
                StorageCall::Migrate {
                    step: MigrationStep::MigrateCommitCounters,
                    answer: reply(r),
                },
            ),
    ;

    /// Brings the security states to the current schema.
    fn migrate_anti_downgrade_state(&mut self) -> (r: Result<(), String>)
        ensures
            final(self).calls() == old(self).calls().push(
                StorageCall::Migrate {
                    step: MigrationStep::MigrateAntiDowngradeState,
                    answer: reply(r),
                },
            ),
    ;

    /// Whether the state of the MLS groups is in the current schema.
    fn group_state_present(&self) -> (r: bool)
        ensures
            r == self.present(MigrationStep::MigrateGroupState),
    ;

    /// Whether the link records are in the current schema.
    fn apq_info_present(&self) -> (r: bool)
        ensures
            r == self.present(MigrationStep::MigrateApqInfo),
    ;

    /// Whether the table of conversations is in the current schema.
    fn conversation_mapping_present(&self) -> (r: bool)
        ensures
            r == self.present(MigrationStep::MigrateConversationMapping),
    ;

    /// Whether the pre-shared keys are in the current schema.
    fn psk_material_present(&self) -> (r: bool)
        ensures
            r == self.present(MigrationStep::MigratePskMaterial),
    ;

    /// Whether the counters of commits are in the current schema.
    fn commit_counters_present(&self) -> (r: bool)
        ensures
            r == self.present(MigrationStep::MigrateCommitCounters),
    ;

    /// Whether the security states are in the current schema.
    fn anti_downgrade_state_present(&self) -> (r: bool)
        ensures
            r == self.present(MigrationStep::MigrateAntiDowngradeState),
    ;
}

/// The marker that follows a step which succeeded.
pub open spec fn marker_after(step: MigrationStep) -> MarkerView {
    match next_step(step) {
        Some(next) => MarkerView::InProgress(next),
        None => MarkerView::Complete,
    }
}

/// The two calls of a step that succeeds: the step, and the marker behind it.
pub open spec fn step_done(step: MigrationStep) -> Seq<StorageCall> {
    seq![
        StorageCall::Migrate { step, answer: Answer::Done },
        StorageCall::Persist { marker: marker_after(step), answer: Answer::Done },
    ]
}

/// `true` if `calls` are the calls of a run that begins with `step`, given the
/// answers in them, and `r` is its result: the steps run in order, the marker is
/// written after each, and the first failure ends the run. A failed step leaves
/// its reason in the marker.
pub open spec fn run_from(
    step: MigrationStep,
    calls: Seq<StorageCall>,
    r: Result<(), MigrationErrorView>,
) -> bool
    decreases calls.len(),
{
    calls.len() >= 2 && match (calls[0], calls[1]) {
        (
            StorageCall::Migrate { step: s, answer: Answer::Refused(reason) },
            StorageCall::Persist { marker, answer },
        ) => s == step && marker == MarkerView::Failed(reason) && calls.len() == 2 && match answer {
            Answer::Done => r == Err::<(), _>(MigrationErrorView::StepFailed { step, reason }),
            Answer::Refused(p) => r == Err::<(), _>(
                MigrationErrorView::PersistenceFailed { reason: p },
            ),
        },
        (
            StorageCall::Migrate { step: s, answer: Answer::Done },
            StorageCall::Persist { marker, answer },
        ) => s == step && marker == marker_after(step) && match (answer, next_step(step)) {
            (Answer::Refused(p), _) => calls.len() == 2 && r == Err::<(), _>(
                MigrationErrorView::PersistenceFailed { reason: p },
            ),
            (Answer::Done, None) => calls.len() == 2 && r is Ok,
            (Answer::Done, Some(next)) => run_from(next, calls.skip(2), r),
        },
        _ => false,
    }
}

/// `true` if `calls` are the calls of a run on a storage with the given marker, and
/// `r` is its result.
pub open spec fn run_follows(
    marker: MarkerView,
    calls: Seq<StorageCall>,
    r: Result<(), MigrationErrorView>,
) -> bool {
    match marker {
        MarkerView::Failed(reason) => calls.len() == 0 && r == Err::<(), _>(
            MigrationErrorView::PreviouslyFailed { reason },
        ),
        MarkerView::Complete => calls.len() == 0 && r is Ok,
        MarkerView::InProgress(step) => run_from(step, calls, r),
        MarkerView::NotStarted => calls.len() >= 1 && match calls[0] {
            StorageCall::Persist { marker: m, answer } => m == MarkerView::InProgress(plan()[0])
                && match answer {
                Answer::Refused(p) => calls.len() == 1 && r == Err::<(), _>(
                    MigrationErrorView::PersistenceFailed { reason: p },
                ),
                Answer::Done => run_from(plan()[0], calls.skip(1), r),
            },
            _ => false,
        },
    }
}

/// `true` if every run from `next` on, put behind `done`, is a run on a storage
/// with the given marker.
#[verifier::opaque]
spec fn leads_to(marker: MarkerView, done: Seq<StorageCall>, next: MigrationStep) -> bool {
    forall|rest: Seq<StorageCall>, r: Result<(), MigrationErrorView>| #[trigger]
        run_from(next, rest, r) ==> run_follows(marker, done + rest, r)
}

proof fn lemma_first_step(marker: MarkerView, done: Seq<StorageCall>, next: MigrationStep)
    requires
        match marker {
            MarkerView::InProgress(step) => done.len() == 0 && next == step,
            MarkerView::NotStarted => next == plan()[0] && done == seq![
                StorageCall::Persist { marker: MarkerView::InProgress(next), answer: Answer::Done },
            ],
            _ => false,
        },
    ensures
        leads_to(marker, done, next),
{
    reveal(leads_to);
    assert forall|rest: Seq<StorageCall>, r: Result<(), MigrationErrorView>| #[trigger]
        run_from(next, rest, r) implies run_follows(marker, done + rest, r) by {
        if marker is NotStarted {
            assert((done + rest).skip(1) =~= rest);
        } else {
            assert(done + rest =~= rest);
        }
    }
}

proof fn lemma_last_step(
    marker: MarkerView,
    done: Seq<StorageCall>,
    step: MigrationStep,
    rest: Seq<StorageCall>,
    r: Result<(), MigrationErrorView>,
)
    requires
        leads_to(marker, done, step),
        run_from(step, rest, r),
    ensures
        run_follows(marker, done + rest, r),
{
    reveal(leads_to);
}

proof fn lemma_step_before(
    step: MigrationStep,
    next: MigrationStep,
    rest: Seq<StorageCall>,
    r: Result<(), MigrationErrorView>,
)
    requires
        next_step(step) == Some(next),
        run_from(next, rest, r),
    ensures
        run_from(step, step_done(step) + rest, r),
{
    assert((step_done(step) + rest).skip(2) =~= rest);
}

proof fn lemma_next_step(
    marker: MarkerView,
    done: Seq<StorageCall>,
    step: MigrationStep,
    next: MigrationStep,
)
    requires
        leads_to(marker, done, step),
        next_step(step) == Some(next),
    ensures
        leads_to(marker, done + step_done(step), next),
{
    let pair = step_done(step);
    assert forall|rest: Seq<StorageCall>, r: Result<(), MigrationErrorView>| #[trigger]
        run_from(next, rest, r) implies run_follows(marker, (done + pair) + rest, r) by {
        lemma_step_before(step, next, rest, r);
        lemma_last_step(marker, done, step, pair + rest, r);
        assert(done + (pair + rest) =~= (done + pair) + rest);
    }
    assert(leads_to(marker, done + pair, next)) by {
        reveal(leads_to);
    }
}

/// The view of the result of a run.
pub open spec fn run_result(r: Result<(), MigrationError>) -> Result<(), MigrationErrorView> {
    match r {
        Ok(_) => Ok(()),
        Err(e) => Err(e@),
    }
}

/// The first step from place `from` on whose outcome is missing.
pub open spec fn first_missing<S: MigrationStorage>(store: S, from: int) -> Option<MigrationStep>
    decreases plan().len() - from,
{
    if from < 0 || from >= plan().len() {
        None
    } else if !store.present(plan()[from]) {
        Some(plan()[from])
    } else {
        first_missing(store, from + 1)
    }
}

/// What the validation of a storage says.
pub open spec fn validation<S: MigrationStorage>(store: S) -> Result<(), ValidationErrorView> {
    if !(store.marker() is Complete) {
        Err(ValidationErrorView::NotComplete { state: store.marker() })
    } else {
        match first_missing(store, 0) {
            Some(step) => Err(ValidationErrorView::InvariantBroken { step }),
            None => Ok(()),
        }
    }
}

/// Runs the migration on a storage. It keeps nothing itself.
pub struct StorageMigrator<'a, S: MigrationStorage> {
    /// The storage.
    pub store: &'a mut S,
}

impl<'a, S: MigrationStorage> StorageMigrator<'a, S> {
    /// The storage as it is.
    pub open spec fn storage(&self) -> S {
        *self.store
    }

    /// A migrator for the storage.
    pub fn new(store: &'a mut S) -> (r: Self)
        ensures
            r.storage() == *old(store),
            *final(r.store) == *final(store),
    {
        StorageMigrator { store }
    }

    /// Runs the migration to its end: from the first step where nothing has been
    /// tried, from the step that the marker names where one is named. Nothing is
    /// done where the migration is complete or has failed.
    pub fn run_migration(&mut self) -> (r: Result<(), MigrationError>)
        ensures
            ({
                let before = old(self).storage().calls();
                let after = final(self).storage().calls();
                before.is_prefix_of(after) && run_follows(
                    old(self).storage().marker(),
                    after.skip(before.len() as int),
                    run_result(r),
                )
            }),
            old(self).storage().marker() is Complete || old(self).storage().marker() is Failed
                ==> final(self).storage() == old(self).storage(),
            r is Ok ==> final(self).storage().marker() is Complete,
            r matches Err(MigrationError::StepFailed { reason, .. }) ==> final(self).storage().marker()
                == MarkerView::Failed(reason@),
            *final(final(self).store) == *final(old(self).store),
    {
        let ghost before = self.store.calls();
        let ghost marker = self.store.marker();
        let current = self.store.read_state();
        let mut next: MigrationStep = match current {
            StorageMigrationState::Failed(reason) => {
                assert(before.skip(before.len() as int) =~= Seq::empty());
                return Err(MigrationError::PreviouslyFailed { reason });
            },
            StorageMigrationState::Complete => {
                assert(before.skip(before.len() as int) =~= Seq::empty());
                return Ok(());
            },
            StorageMigrationState::NotStarted => MigrationStep::MigrateGroupState,
            StorageMigrationState::InProgress(step) => step,
        };
        let ghost mut done: Seq<StorageCall> = Seq::empty();
        if matches!(current, StorageMigrationState::NotStarted) {
            let outcome = self.persist(&StorageMigrationState::InProgress(next));
            proof {
                done = seq![self.store.calls().last()];
                assert(self.store.calls() =~= before + done);
                assert(self.store.calls().skip(before.len() as int) =~= done);
            }
            if let Err(e) = outcome {
                return Err(e);
            }
        }
        assert(self.store.calls() =~= before + done);
        proof {
            lemma_first_step(marker, done, next);
        }
        loop
            invariant
                marker == old(self).storage().marker(),
                before == old(self).storage().calls(),
                marker is NotStarted || marker is InProgress,
                self.store.calls() == before + done,
                *final(self.store) == *final(old(self).store),
                leads_to(marker, done, next),
            decreases plan().len() - step_index(next),
        {
            if let Err(reason) = self.run_step(next) {
                let ghost first = self.store.calls().last();
                let failed = StorageMigrationState::Failed(reason.clone());
                let outcome = self.persist(&failed);
                let ghost rest = seq![first, self.store.calls().last()];
                let result = match outcome {
                    Err(e) => Err(e),
                    Ok(_) => Err(MigrationError::StepFailed { step: next, reason }),
                };
                proof {
                    assert(self.store.calls() =~= before + (done + rest));
                    assert(self.store.calls().skip(before.len() as int) =~= done + rest);
                    lemma_last_step(marker, done, next, rest, run_result(result));
                }
                return result;
            }
            let ghost first = self.store.calls().last();
            match next.next() {
                Some(after) => {
                    let outcome = self.persist(&StorageMigrationState::InProgress(after));
                    let ghost pair = seq![first, self.store.calls().last()];
                    assert(self.store.calls() =~= before + (done + pair));
                    if let Err(e) = outcome {
                        proof {
                            assert(self.store.calls().skip(before.len() as int) =~= done + pair);
                            lemma_last_step(marker, done, next, pair, Err(e@));
                        }
                        return Err(e);
                    }
                    proof {
                        lemma_next_step(marker, done, next, after);
                        done = done + pair;
                    }
                    next = after;
                },
                None => {
                    let outcome = self.persist(&StorageMigrationState::Complete);
                    let ghost pair = seq![first, self.store.calls().last()];
                    proof {
                        assert(self.store.calls() =~= before + (done + pair));
                        assert(self.store.calls().skip(before.len() as int) =~= done + pair);
                        lemma_last_step(marker, done, next, pair, run_result(outcome));
                    }
                    return outcome;
                },
            }
        }
    }

    /// Checks that the migration is complete and that the outcome of every step
    /// is present.
    pub fn validate_post_migration(&self) -> (r: Result<(), MigrationValidationError>)
        ensures
            match (r, validation(self.storage())) {
                (Ok(_), Ok(_)) => true,
                (Err(e), Err(f)) => e@ == f,
                _ => false,
            },
    {
        let state = self.store.read_state();
        if !matches!(state, StorageMigrationState::Complete) {
            return Err(MigrationValidationError::NotComplete { state });
        }
        let steps = MigrationStep::all();
        let mut i: usize = 0;
        while i < steps.len()
            invariant
                i <= steps@.len(),
                steps@ == plan(),
                self.store.marker() is Complete,
                first_missing(*self.store, 0) == first_missing(*self.store, i as int),
            decreases steps@.len() - i,
        {
            let step = steps[i];
            if !self.invariant_holds(step) {
                return Err(MigrationValidationError::InvariantBroken { step });
            }
            i += 1;
        }
        Ok(())
    }

    /// Runs one step.
    fn run_step(&mut self, step: MigrationStep) -> (r: Result<(), String>)
        ensures
            final(self).storage().calls() == old(self).storage().calls().push(
                StorageCall::Migrate { step, answer: reply(r) },
            ),
            *final(final(self).store) == *final(old(self).store),
    {
        match step {
            MigrationStep::MigrateGroupState => self.store.migrate_group_state(),
            MigrationStep::MigrateApqInfo => self.store.migrate_apq_info(),
            MigrationStep::MigrateConversationMapping => self.store.migrate_conversation_mapping(),
            MigrationStep::MigratePskMaterial => self.store.migrate_psk_material(),
            MigrationStep::MigrateCommitCounters => self.store.migrate_commit_counters(),
            MigrationStep::MigrateAntiDowngradeState => self.store.migrate_anti_downgrade_state(),
        }
    }

    /// Whether the outcome of a step is present.
    fn invariant_holds(&self, step: MigrationStep) -> (r: bool)
        ensures
            r == self.storage().present(step),
    {
        match step {
            MigrationStep::MigrateGroupState => self.store.group_state_present(),
            MigrationStep::MigrateApqInfo => self.store.apq_info_present(),
            MigrationStep::MigrateConversationMapping => self.store.conversation_mapping_present(),
            MigrationStep::MigratePskMaterial => self.store.psk_material_present(),
            MigrationStep::MigrateCommitCounters => self.store.commit_counters_present(),
            MigrationStep::MigrateAntiDowngradeState => self.store.anti_downgrade_state_present(),
        }
    }

    /// Writes the marker.
    fn persist(&mut self, state: &StorageMigrationState) -> (r: Result<(), MigrationError>)
        ensures
            match r {
                Ok(_) => final(self).storage().calls() == old(self).storage().calls().push(
                    StorageCall::Persist { marker: state@, answer: Answer::Done },
                ) && final(self).storage().marker() == state@,
                Err(e) => e matches MigrationError::PersistenceFailed { reason }
                    && final(self).storage().calls() == old(self).storage().calls().push(
                    StorageCall::Persist { marker: state@, answer: Answer::Refused(reason@) },
                ),
            },
            *final(final(self).store) == *final(old(self).store),
    {
        match self.store.persist_state(state) {
            Ok(_) => Ok(()),
            Err(reason) => Err(MigrationError::PersistenceFailed { reason }),
        }
    }
}

/// The calls of a run from `step` on in which nothing fails.
pub open spec fn smooth_run(step: MigrationStep) -> Seq<StorageCall>
    decreases plan().len() - step_index(step),
{
    match next_step(step) {
        Some(next) => step_done(step) + smooth_run(next),
        None => step_done(step),
    }
}

/// A run that succeeds has run every step from its first one on exactly once and
/// in order, and has written the marker after each.
pub proof fn successful_runs_take_every_step(step: MigrationStep, calls: Seq<StorageCall>)
    requires
        run_from(step, calls, Ok(())),
    ensures
        calls == smooth_run(step),
    decreases calls.len(),
{
    match next_step(step) {
        Some(next) => {
            successful_runs_take_every_step(next, calls.skip(2));
            assert(calls =~= seq![calls[0], calls[1]] + calls.skip(2));
        },
        None => {
            assert(calls =~= seq![calls[0], calls[1]]);
        },
    }
}

/// A storage that answers every call with success is brought to its end.
pub proof fn smooth_runs_succeed(step: MigrationStep)
    ensures
        run_from(step, smooth_run(step), Ok(())),
    decreases plan().len() - step_index(step),
{
    match next_step(step) {
        Some(next) => {
            smooth_runs_succeed(next);
            assert(smooth_run(step).skip(2) =~= smooth_run(next));
        },
        None => {},
    }
}

/// Whenever a step is run, the marker that was written last names that step. A
/// client that stops there begins again with it, and no earlier step is repeated.
pub proof fn marker_names_the_step_that_runs(
    step: MigrationStep,
    calls: Seq<StorageCall>,
    r: Result<(), MigrationErrorView>,
    i: int,
)
    requires
        run_from(step, calls, r),
        0 <= i < calls.len(),
        calls[i] is Migrate,
    ensures
        step_index(calls[i]->Migrate_step) >= step_index(step),
        if i == 0 {
            calls[i]->Migrate_step == step
        } else {
            calls[i - 1] == (StorageCall::Persist {
                marker: MarkerView::InProgress(calls[i]->Migrate_step),
                answer: Answer::Done,
            })
        },
    decreases calls.len(),
{
    if i >= 2 {
        let next = next_step(step)->Some_0;
        marker_names_the_step_that_runs(next, calls.skip(2), r, i - 2);
        assert(calls.skip(2)[i - 2] == calls[i]);
        if i > 2 {
            assert(calls.skip(2)[i - 3] == calls[i - 1]);
        } else {
            assert(calls[1] == (StorageCall::Persist {
                marker: MarkerView::InProgress(next),
                answer: Answer::Done,
            }));
        }
    }
}

/// A client that stops before a step, and later begins again with the step that the
/// marker names, has in the end made the calls of one single run, with the result of
/// its last part.
pub proof fn interrupted_runs_are_resumed(
    step: MigrationStep,
    calls: Seq<StorageCall>,
    r: Result<(), MigrationErrorView>,
    i: int,
    rest: Seq<StorageCall>,
    q: Result<(), MigrationErrorView>,
)
    requires
        run_from(step, calls, r),
        0 <= i < calls.len(),
        calls[i] is Migrate,
        run_follows(MarkerView::InProgress(calls[i]->Migrate_step), rest, q),
    ensures
        run_from(step, calls.take(i) + rest, q),
    decreases calls.len(),
{
    if i == 0 {
        assert(calls.take(i) + rest =~= rest);
    } else {
        assert(i >= 2);
        let next = next_step(step)->Some_0;
        assert(calls.skip(2)[i - 2] == calls[i]);
        interrupted_runs_are_resumed(next, calls.skip(2), r, i - 2, rest, q);
        assert((calls.take(i) + rest).skip(2) =~= calls.skip(2).take(i - 2) + rest);
    }
}

/// Once a run has succeeded, a second run on the same storage succeeds without a
/// call. Once a step has failed, a second run is refused without a call, with the
/// reason of that failure.
pub proof fn finished_migrations_are_left_alone(
    marker: MarkerView,
    calls: Seq<StorageCall>,
    r: Result<(), MigrationErrorView>,
)
    requires
        run_follows(marker, calls, r),
        marker is Complete || marker is Failed,
    ensures
        calls.len() == 0,
        r is Ok <==> marker is Complete,
        marker matches MarkerView::Failed(reason) ==> r == Err::<(), _>(
            MigrationErrorView::PreviouslyFailed { reason },
        ),
{
}

/// A run stops at the first call that fails, with an error that tells it: after a
/// failed step only its reason is written to the marker.
pub proof fn a_failure_ends_the_run(
    step: MigrationStep,
    calls: Seq<StorageCall>,
    r: Result<(), MigrationErrorView>,
    i: int,
)
    requires
        run_from(step, calls, r),
        0 <= i < calls.len(),
        match calls[i] {
            StorageCall::Migrate { answer, .. } => answer is Refused,
            StorageCall::Persist { answer, .. } => answer is Refused,
        },
    ensures
        r is Err,
        match calls[i] {
            StorageCall::Migrate { answer, .. } => i == calls.len() - 2 && calls[i + 1] is Persist
                && calls[i + 1]->Persist_marker == MarkerView::Failed(answer->Refused_0),
            StorageCall::Persist { answer, .. } => i == calls.len() - 1 && r == Err::<(), _>(
                MigrationErrorView::PersistenceFailed { reason: answer->Refused_0 },
            ),
        },
    decreases calls.len(),
{
    if i >= 2 {
        let next = next_step(step)->Some_0;
        a_failure_ends_the_run(next, calls.skip(2), r, i - 2);
        assert(calls.skip(2)[i - 2] == calls[i]);
        if calls[i] is Migrate {
            assert(calls.skip(2)[i - 1] == calls[i + 1]);
        }
    }
}

/// The name of a step.
pub open spec fn step_name(step: MigrationStep) -> Seq<char> {
    match step {
        MigrationStep::MigrateGroupState => "MigrateGroupState"@,
        MigrationStep::MigrateApqInfo => "MigrateApqInfo"@,
        MigrationStep::MigrateConversationMapping => "MigrateConversationMapping"@,
        MigrationStep::MigratePskMaterial => "MigratePskMaterial"@,
        MigrationStep::MigrateCommitCounters => "MigrateCommitCounters"@,
        MigrationStep::MigrateAntiDowngradeState => "MigrateAntiDowngradeState"@,
    }
}

impl MigrationStep {
    /// The name of the step.
    pub fn name(self) -> (r: &'static str)
        ensures
            r@ == step_name(self),
    {
        match self {
            MigrationStep::MigrateGroupState => "MigrateGroupState",
            MigrationStep::MigrateApqInfo => "MigrateApqInfo",
            MigrationStep::MigrateConversationMapping => "MigrateConversationMapping",
            MigrationStep::MigratePskMaterial => "MigratePskMaterial",
            MigrationStep::MigrateCommitCounters => "MigrateCommitCounters",
            MigrationStep::MigrateAntiDowngradeState => "MigrateAntiDowngradeState",
        }
    }
}

/// What `Debug` writes for a marker.
pub open spec fn marker_text(marker: MarkerView) -> Seq<char> {
    match marker {
        MarkerView::NotStarted => "NotStarted"@,
        MarkerView::InProgress(step) => variant_text("InProgress"@, step_name(step)),
        MarkerView::Complete => "Complete"@,
        MarkerView::Failed(reason) => variant_text("Failed"@, quoted(reason)),
    }
}

impl StorageMigrationState {
    /// What `Debug` writes for the marker.
    pub fn text(&self) -> (r: String)
        ensures
            r@ == marker_text(self@),
    {
        match self {
            StorageMigrationState::NotStarted => "NotStarted".to_owned(),
            StorageMigrationState::InProgress(step) => format_variant("InProgress", step.name()),
            StorageMigrationState::Complete => "Complete".to_owned(),
            StorageMigrationState::Failed(reason) => format_variant(
                "Failed",
                quote(reason.as_str()).as_str(),
            ),
        }
    }
}

/// The text of an error.
pub open spec fn migration_error_text(e: MigrationErrorView) -> Seq<char> {
    match e {
        MigrationErrorView::StepFailed { step, reason } => "step "@ + step_name(step) + " failed: "@
            + reason,
        MigrationErrorView::PersistenceFailed { reason } => "persisting migration state failed: "@
            + reason,
        MigrationErrorView::PreviouslyFailed { reason } => "migration is in Failed state: "@
            + reason,
    }
}

impl MigrationError {
    /// The text of the error.
    pub fn message(&self) -> (r: String)
        ensures
            r@ == migration_error_text(self@),
    {
        match self {
            MigrationError::StepFailed { step, reason } => {
                let mut text: String = "step ".to_owned();
                text.append(step.name());
                text.append(" failed: ");
                text.append(reason.as_str());
                text
            },
            MigrationError::PersistenceFailed { reason } => {
                let mut text: String = "persisting migration state failed: ".to_owned();
                text.append(reason.as_str());
                text
            },
            MigrationError::PreviouslyFailed { reason } => {
                let mut text: String = "migration is in Failed state: ".to_owned();
                text.append(reason.as_str());
                text
            },
        }
    }
}

/// The text of an error.
pub open spec fn validation_error_text(e: ValidationErrorView) -> Seq<char> {
    match e {
        ValidationErrorView::NotComplete { state } => "migration not complete: "@ + marker_text(
            state,
        ),
        ValidationErrorView::InvariantBroken { step } =>
            "post-migration invariant broken: step "@ + step_name(step),
    }
}

impl MigrationValidationError {
    /// The text of the error.
    pub fn message(&self) -> (r: String)
        ensures
            r@ == validation_error_text(self@),
    {
        match self {
            MigrationValidationError::NotComplete { state } => {
                let mut text: String = "migration not complete: ".to_owned();
                text.append(state.text().as_str());
                text
            },
            MigrationValidationError::InvariantBroken { step } => {
                let mut text: String = "post-migration invariant broken: step ".to_owned();
                text.append(step.name());
                text
            },
        }
    }
}

/// The plan holds every step once, and it is followed step by step: first the groups,
/// then the link records, the table of conversations, the keys, the counters, and last
/// the security states.
pub proof fn plan_runs_every_step_in_turn(step: MigrationStep)
    ensures
        plan().len() == 6,
        plan().no_duplicates(),
        plan().contains(step),
        0 <= step_index(step) < 6,
        plan()[step_index(step)] == step,
        plan()[0] == MigrationStep::MigrateGroupState,
        next_step(step) == (match step {
            MigrationStep::MigrateGroupState => Some(MigrationStep::MigrateApqInfo),
            MigrationStep::MigrateApqInfo => Some(MigrationStep::MigrateConversationMapping),
            MigrationStep::MigrateConversationMapping => Some(MigrationStep::MigratePskMaterial),
            MigrationStep::MigratePskMaterial => Some(MigrationStep::MigrateCommitCounters),
            MigrationStep::MigrateCommitCounters => Some(MigrationStep::MigrateAntiDowngradeState),
            MigrationStep::MigrateAntiDowngradeState => None,
        }),
{
    assert(plan()[step_index(step)] == step);
}

proof fn lemma_run_reaches(step: MigrationStep, calls: Seq<StorageCall>, target: MigrationStep)
    requires
        run_from(step, calls, Ok(())),
        step_index(target) >= step_index(step),
    ensures
        calls.len() == 2 * (6 - step_index(step)),
        calls[2 * (step_index(target) - step_index(step))] == (StorageCall::Migrate {
            step: target,
            answer: Answer::Done,
        }),
        calls.last() == (StorageCall::Persist {
            marker: MarkerView::Complete,
            answer: Answer::Done,
        }),
    decreases calls.len(),
{
    plan_runs_every_step_in_turn(step);
    match next_step(step) {
        Some(next) => {
            let tail = calls.skip(2);
            if target == step {
                lemma_run_reaches(next, tail, next);
            } else {
                lemma_run_reaches(next, tail, target);
                let k = 2 * (step_index(target) - step_index(next));
                assert(tail[k] == calls[k + 2]);
            }
            assert(tail.last() == calls.last());
        },
        None => {},
    }
}

/// A migration that starts anew and succeeds has written the marker for its first step,
/// has then run each of the six steps with success, one after the other, each followed
/// by a marker, and has ended with the marker that says that it is complete.
pub proof fn successful_migrations_run_all_steps(calls: Seq<StorageCall>, step: MigrationStep)
    requires
        run_follows(MarkerView::NotStarted, calls, Ok(())),
    ensures
        calls.len() == 13,
        calls[0] == (StorageCall::Persist {
            marker: MarkerView::InProgress(MigrationStep::MigrateGroupState),
            answer: Answer::Done,
        }),
        calls[1 + 2 * step_index(step)] == (StorageCall::Migrate { step, answer: Answer::Done }),
        calls.last() == (StorageCall::Persist {
            marker: MarkerView::Complete,
            answer: Answer::Done,
        }),
{
    let tail = calls.skip(1);
    lemma_run_reaches(plan()[0], tail, step);
    assert(tail[2 * step_index(step)] == calls[1 + 2 * step_index(step)]);
    assert(tail.last() == calls.last());
}

/// A run on a storage whose marker names a step begins with that step, and it is refused
/// or left alone only where the marker says that the migration failed or is complete.
pub proof fn runs_begin_where_the_marker_says(
    marker: MarkerView,
    calls: Seq<StorageCall>,
    r: Result<(), MigrationErrorView>,
)
    requires
        run_follows(marker, calls, r),
    ensures
        marker matches MarkerView::InProgress(step) ==> calls.len() > 0 && calls[0] is Migrate
            && calls[0]->Migrate_step == step,
        marker is NotStarted ==> calls.len() > 0 && calls[0] is Persist
            && calls[0]->Persist_marker == MarkerView::InProgress(MigrationStep::MigrateGroupState),
        calls.len() == 0 <==> marker is Complete || marker is Failed,
        r matches Err(MigrationErrorView::PreviouslyFailed { reason }) ==> marker
            == MarkerView::Failed(reason) || calls.len() > 0,
{
}

proof fn lemma_first_missing<S: MigrationStorage>(store: S, from: int)
    requires
        0 <= from <= 6,
    ensures
        match first_missing(store, from) {
            Some(step) => from <= step_index(step) && !store.present(step) && forall|s: MigrationStep|
                from <= #[trigger] step_index(s) < step_index(step) ==> store.present(s),
            None => forall|s: MigrationStep| from <= #[trigger] step_index(s) ==> store.present(s),
        },
    decreases 6 - from,
{
    assert forall|s: MigrationStep| plan()[#[trigger] step_index(s)] == s && step_index(s) < 6 by {
        plan_runs_every_step_in_turn(s);
    }
    if from < 6 {
        assert(step_index(plan()[from]) == from);
        lemma_first_missing(store, from + 1);
    }
}

/// A migrated storage is accepted exactly when its marker says that the migration is
/// complete and it reports the outcome of every step as present. Otherwise the error
/// tells the marker, or the first step of the plan whose outcome is missing.
pub proof fn storage_is_accepted_iff_complete<S: MigrationStorage>(store: S)
    ensures
        validation(store) is Ok <==> store.marker() is Complete && forall|s: MigrationStep|
            #[trigger] store.present(s),
        match validation(store) {
            Ok(_) => true,
            Err(ValidationErrorView::NotComplete { state }) => state == store.marker() && !(
            state is Complete),
            Err(ValidationErrorView::InvariantBroken { step }) => store.marker() is Complete
                && !store.present(step) && forall|s: MigrationStep|
                #[trigger] step_index(s) < step_index(step) ==> store.present(s),
        },
{
    lemma_first_missing(store, 0);
    assert forall|s: MigrationStep| 0 <= #[trigger] step_index(s) by {
        plan_runs_every_step_in_turn(s);
    }
    if validation(store) is Ok {
        assert forall|s: MigrationStep| #[trigger] store.present(s) by {
            assert(0 <= step_index(s));
        }
    }
}

/// Steps are told apart by their names.
pub proof fn names_tell_steps_apart(a: MigrationStep, b: MigrationStep)
    ensures
        step_name(a) == step_name(b) ==> a == b,
{
    reveal_strlit("MigrateGroupState");
    reveal_strlit("MigrateApqInfo");
    reveal_strlit("MigrateConversationMapping");
    reveal_strlit("MigratePskMaterial");
    reveal_strlit("MigrateCommitCounters");
    reveal_strlit("MigrateAntiDowngradeState");
    assert("MigrateGroupState"@.len() == 17 && "MigrateApqInfo"@.len() == 14);
    assert("MigrateConversationMapping"@.len() == 26 && "MigratePskMaterial"@.len() == 18);
    assert("MigrateCommitCounters"@.len() == 21 && "MigrateAntiDowngradeState"@.len() == 25);
}

} // verus!
