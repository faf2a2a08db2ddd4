//! Migrations of a storage, with stops in between.
use kchat_mls::group::storage_migration::{
    MigrationError, MigrationStep, MigrationStorage, MigrationValidationError,
    StorageMigrationState, StorageMigrator,
};

#[derive(Debug, Default, Clone)]
struct InMemoryStore {
    state: Option<StorageMigrationState>,
    calls: Vec<MigrationStep>,
    present: [bool; 6],
    fail_at: Option<MigrationStep>,
    skip_persist: bool,
}

impl InMemoryStore {
    fn new() -> Self {
        Self::default()
    }

    fn with_state(mut self, state: StorageMigrationState) -> Self {
        self.state = Some(state);
        self
    }

    fn with_fail_at(mut self, step: MigrationStep) -> Self {
        self.fail_at = Some(step);
        self
    }

    fn mark(&mut self, step: MigrationStep) -> Result<(), String> {
        if self.fail_at == Some(step) {
            return Err(format!("simulated failure at {step:?}"));
        }
        self.calls.push(step);
        self.present[step.index()] = true;
        Ok(())
    }
}

impl MigrationStorage for InMemoryStore {
    fn read_state(&self) -> StorageMigrationState {
        self.state
            .clone()
            .unwrap_or(StorageMigrationState::NotStarted)
    }
    fn persist_state(&mut self, state: &StorageMigrationState) -> Result<(), String> {
        if self.skip_persist {
            return Err("simulated persistence failure".into());
        }
        self.state = Some(state.clone());
        Ok(())
    }
    fn migrate_group_state(&mut self) -> Result<(), String> {
        self.mark(MigrationStep::MigrateGroupState)
    }
    fn migrate_apq_info(&mut self) -> Result<(), String> {
        self.mark(MigrationStep::MigrateApqInfo)
    }
    fn migrate_conversation_mapping(&mut self) -> Result<(), String> {
        self.mark(MigrationStep::MigrateConversationMapping)
    }
    fn migrate_psk_material(&mut self) -> Result<(), String> {
        self.mark(MigrationStep::MigratePskMaterial)
    }
    fn migrate_commit_counters(&mut self) -> Result<(), String> {
        self.mark(MigrationStep::MigrateCommitCounters)
    }
    fn migrate_anti_downgrade_state(&mut self) -> Result<(), String> {
        self.mark(MigrationStep::MigrateAntiDowngradeState)
    }
    fn group_state_present(&self) -> bool {
        self.present[MigrationStep::MigrateGroupState.index()]
    }
    fn apq_info_present(&self) -> bool {
        self.present[MigrationStep::MigrateApqInfo.index()]
    }
    fn conversation_mapping_present(&self) -> bool {
        self.present[MigrationStep::MigrateConversationMapping.index()]
    }
    fn psk_material_present(&self) -> bool {
        self.present[MigrationStep::MigratePskMaterial.index()]
    }
    fn commit_counters_present(&self) -> bool {
        self.present[MigrationStep::MigrateCommitCounters.index()]
    }
    fn anti_downgrade_state_present(&self) -> bool {
        self.present[MigrationStep::MigrateAntiDowngradeState.index()]
    }
}

#[test]
fn fresh_migration_runs_every_step_in_order_and_completes() {
    let mut store = InMemoryStore::new();
    let mut migrator = StorageMigrator::new(&mut store);
    migrator
        .run_migration()
        .expect("fresh migration must succeed");
    assert_eq!(store.read_state(), StorageMigrationState::Complete);
    assert_eq!(store.calls, MigrationStep::all());

    let migrator = StorageMigrator::new(&mut store);
    migrator
        .validate_post_migration()
        .expect("post-migration validation must pass");
}

#[test]
fn complete_migration_is_idempotent_on_rerun() {
    let mut store = InMemoryStore::new();
    StorageMigrator::new(&mut store)
        .run_migration()
        .expect("first run");
    let calls_after_first = store.calls.clone();

    StorageMigrator::new(&mut store)
        .run_migration()
        .expect("second run must be a no-op");

    assert_eq!(store.calls, calls_after_first, "no extra calls on re-run");
    assert_eq!(store.read_state(), StorageMigrationState::Complete);
}

#[test]
fn resume_after_crash_at_group_state_runs_every_remaining_step() {
    resume_after_crash_test(MigrationStep::MigrateGroupState);
}

#[test]
fn resume_after_crash_at_apq_info_runs_remaining_steps() {
    resume_after_crash_test(MigrationStep::MigrateApqInfo);
}

#[test]
fn resume_after_crash_at_conversation_mapping() {
    resume_after_crash_test(MigrationStep::MigrateConversationMapping);
}

#[test]
fn resume_after_crash_at_psk_material() {
    resume_after_crash_test(MigrationStep::MigratePskMaterial);
}

#[test]
fn resume_after_crash_at_commit_counters() {
    resume_after_crash_test(MigrationStep::MigrateCommitCounters);
}

#[test]
fn resume_after_crash_at_anti_downgrade_state() {
    resume_after_crash_test(MigrationStep::MigrateAntiDowngradeState);
}

fn resume_after_crash_test(resume_at: MigrationStep) {
    let mut store =
        InMemoryStore::new().with_state(StorageMigrationState::InProgress(resume_at));
    for step in MigrationStep::all().iter().take_while(|s| **s != resume_at) {
        store.present[step.index()] = true;
    }

    StorageMigrator::new(&mut store)
        .run_migration()
        .expect("resume must succeed");

    let expected_calls: Vec<_> = MigrationStep::all().iter()
        .copied()
        .skip_while(|s| *s != resume_at)
        .collect();
    assert_eq!(
        store.calls, expected_calls,
        "expected to resume from {resume_at:?} and run only the remaining steps",
    );
    assert_eq!(store.read_state(), StorageMigrationState::Complete);
    StorageMigrator::new(&mut store)
        .validate_post_migration()
        .expect("post-migration validation must pass after resume");
}

#[test]
fn step_failure_is_persisted_and_blocks_retry() {
    let mut store = InMemoryStore::new().with_fail_at(MigrationStep::MigrateApqInfo);
    let err = StorageMigrator::new(&mut store)
        .run_migration()
        .expect_err("MigrateApqInfo must propagate failure");
    assert!(matches!(
        err,
        MigrationError::StepFailed {
            step: MigrationStep::MigrateApqInfo,
            ..
        }
    ));
    assert!(matches!(
        store.read_state(),
        StorageMigrationState::Failed(_)
    ));

    store.fail_at = None;
    let err = StorageMigrator::new(&mut store)
        .run_migration()
        .expect_err("Failed state must block retry until cleared");
    assert!(matches!(err, MigrationError::PreviouslyFailed { .. }));
}

#[test]
fn validation_distinguishes_in_progress_from_complete() {
    let mut store = InMemoryStore::new();
    let migrator = StorageMigrator::new(&mut store);
    let err = migrator
        .validate_post_migration()
        .expect_err("not yet started must fail validation");
    assert!(matches!(err, MigrationValidationError::NotComplete { .. }));

    let mut store = InMemoryStore::new();
    StorageMigrator::new(&mut store).run_migration().unwrap();
    StorageMigrator::new(&mut store)
        .validate_post_migration()
        .expect("Complete must validate");
}

#[test]
fn validation_catches_missing_invariant_after_complete() {
    let mut store = InMemoryStore::new();
    StorageMigrator::new(&mut store).run_migration().unwrap();
    store.present[MigrationStep::MigratePskMaterial.index()] = false;
    let err = StorageMigrator::new(&mut store)
        .validate_post_migration()
        .expect_err("missing invariant must surface");
    assert!(matches!(
        err,
        MigrationValidationError::InvariantBroken {
            step: MigrationStep::MigratePskMaterial
        }
    ));
}

#[test]
fn state_persistence_round_trip_for_every_variant() {
    let mut store = InMemoryStore::new();
    for state in [
        StorageMigrationState::NotStarted,
        StorageMigrationState::InProgress(MigrationStep::MigrateGroupState),
        StorageMigrationState::InProgress(MigrationStep::MigrateAntiDowngradeState),
        StorageMigrationState::Complete,
        StorageMigrationState::Failed("oops".into()),
    ] {
        store.persist_state(&state).expect("persist");
        assert_eq!(store.read_state(), state);
    }
}
