//! The states of a migration.
use kchat_mls::ciphersuite::security_mode::SecurityMode;
use kchat_mls::group::migration_state::{
    ConversationLifecycle, MigrationError, MigrationEvent, MigrationState, MigrationStateMachine,
};

fn conv_id() -> Vec<u8> {
    b"conv-1".to_vec()
}

#[test]
fn happy_path_drives_through_every_state_to_operational() {
    let mut sm = MigrationStateMachine::new(conv_id());
    assert_eq!(sm.state(), &MigrationState::NotStarted);
    assert!(!sm.is_terminal());

    sm.advance(MigrationEvent::CapabilitiesReady).unwrap();
    assert_eq!(sm.state(), &MigrationState::CapabilitiesCollected);

    sm.advance(MigrationEvent::KeyPackagesReady).unwrap();
    assert_eq!(sm.state(), &MigrationState::KeyPackagesPublished);

    sm.advance(MigrationEvent::ModeSelected(
        SecurityMode::PqConfidentiality,
    ))
    .unwrap();
    assert_eq!(sm.state(), &MigrationState::ModeSelected);
    assert_eq!(sm.target_mode(), Some(SecurityMode::PqConfidentiality));

    sm.advance(MigrationEvent::BootstrapStarted).unwrap();
    assert_eq!(sm.state(), &MigrationState::BootstrapInitiated);

    sm.advance(MigrationEvent::BootstrapDone).unwrap();
    assert_eq!(sm.state(), &MigrationState::BootstrapComplete);

    sm.advance(MigrationEvent::FirstFullCommitDone).unwrap();
    assert_eq!(sm.state(), &MigrationState::FirstFullCommitDone);

    sm.advance(MigrationEvent::FirstFullCommitDone).unwrap();
    assert_eq!(sm.state(), &MigrationState::Operational);
    assert!(sm.is_terminal());
}

#[test]
fn invalid_transition_from_not_started_to_operational_is_rejected() {
    let mut sm = MigrationStateMachine::new(conv_id());
    let err = sm
        .advance(MigrationEvent::FirstFullCommitDone)
        .expect_err("must reject");
    assert!(matches!(err, MigrationError::InvalidTransition { .. }));
    assert_eq!(sm.state(), &MigrationState::NotStarted);
}

#[test]
fn skipping_capabilities_collection_is_rejected() {
    let mut sm = MigrationStateMachine::new(conv_id());
    let err = sm.advance(MigrationEvent::KeyPackagesReady).unwrap_err();
    assert!(matches!(err, MigrationError::InvalidTransition { .. }));
    assert_eq!(sm.state(), &MigrationState::NotStarted);
}

#[test]
fn terminal_operational_rejects_all_events() {
    let mut sm = MigrationStateMachine::new(conv_id());
    sm.advance(MigrationEvent::CapabilitiesReady).unwrap();
    sm.advance(MigrationEvent::KeyPackagesReady).unwrap();
    sm.advance(MigrationEvent::ModeSelected(
        SecurityMode::PqConfidentiality,
    ))
    .unwrap();
    sm.advance(MigrationEvent::BootstrapStarted).unwrap();
    sm.advance(MigrationEvent::BootstrapDone).unwrap();
    sm.advance(MigrationEvent::FirstFullCommitDone).unwrap();
    sm.advance(MigrationEvent::FirstFullCommitDone).unwrap();
    assert!(sm.is_terminal());

    for ev in [
        MigrationEvent::CapabilitiesReady,
        MigrationEvent::KeyPackagesReady,
        MigrationEvent::ModeSelected(SecurityMode::PqConfidentiality),
        MigrationEvent::BootstrapStarted,
        MigrationEvent::BootstrapDone,
        MigrationEvent::FirstFullCommitDone,
        MigrationEvent::Failed("nope".into()),
    ] {
        let err = sm.advance(ev).expect_err("operational rejects all");
        assert!(matches!(err, MigrationError::Terminal { .. }));
    }
}

#[test]
fn terminal_failed_rejects_all_events() {
    let mut sm = MigrationStateMachine::new(conv_id());
    sm.advance(MigrationEvent::Failed("oops".into())).unwrap();
    assert!(sm.is_terminal());

    for ev in [
        MigrationEvent::CapabilitiesReady,
        MigrationEvent::KeyPackagesReady,
        MigrationEvent::Failed("again".into()),
    ] {
        let err = sm.advance(ev).expect_err("failed rejects all");
        assert!(matches!(err, MigrationError::Terminal { .. }));
    }
}

#[test]
fn failed_is_reachable_from_every_non_terminal_state() {
    type Driver = Box<dyn Fn(&mut MigrationStateMachine)>;
    let drivers: Vec<Driver> = vec![
        Box::new(|_sm| {}),
        Box::new(|sm| {
            sm.advance(MigrationEvent::CapabilitiesReady).unwrap();
        }),
        Box::new(|sm| {
            sm.advance(MigrationEvent::CapabilitiesReady).unwrap();
            sm.advance(MigrationEvent::KeyPackagesReady).unwrap();
        }),
        Box::new(|sm| {
            sm.advance(MigrationEvent::CapabilitiesReady).unwrap();
            sm.advance(MigrationEvent::KeyPackagesReady).unwrap();
            sm.advance(MigrationEvent::ModeSelected(
                SecurityMode::PqConfidentiality,
            ))
            .unwrap();
        }),
        Box::new(|sm| {
            sm.advance(MigrationEvent::CapabilitiesReady).unwrap();
            sm.advance(MigrationEvent::KeyPackagesReady).unwrap();
            sm.advance(MigrationEvent::ModeSelected(
                SecurityMode::PqConfidentiality,
            ))
            .unwrap();
            sm.advance(MigrationEvent::BootstrapStarted).unwrap();
        }),
        Box::new(|sm| {
            sm.advance(MigrationEvent::CapabilitiesReady).unwrap();
            sm.advance(MigrationEvent::KeyPackagesReady).unwrap();
            sm.advance(MigrationEvent::ModeSelected(
                SecurityMode::PqConfidentiality,
            ))
            .unwrap();
            sm.advance(MigrationEvent::BootstrapStarted).unwrap();
            sm.advance(MigrationEvent::BootstrapDone).unwrap();
        }),
        Box::new(|sm| {
            sm.advance(MigrationEvent::CapabilitiesReady).unwrap();
            sm.advance(MigrationEvent::KeyPackagesReady).unwrap();
            sm.advance(MigrationEvent::ModeSelected(
                SecurityMode::PqConfidentiality,
            ))
            .unwrap();
            sm.advance(MigrationEvent::BootstrapStarted).unwrap();
            sm.advance(MigrationEvent::BootstrapDone).unwrap();
            sm.advance(MigrationEvent::FirstFullCommitDone).unwrap();
        }),
    ];

    for (i, driver) in drivers.iter().enumerate() {
        let mut sm = MigrationStateMachine::new(conv_id());
        driver(&mut sm);
        assert!(!sm.is_terminal(), "driver {i} ended in terminal state");

        sm.advance(MigrationEvent::Failed(format!("driver-{i} failure")))
            .unwrap_or_else(|e| panic!("driver {i}: Failed must always succeed: {e:?}"));

        assert!(matches!(sm.state(), MigrationState::Failed(_)));
        assert!(sm.is_terminal());
    }
}

#[test]
fn can_advance_does_not_mutate() {
    let mut sm = MigrationStateMachine::new(conv_id());
    assert!(sm.can_advance(&MigrationEvent::CapabilitiesReady));
    assert!(!sm.can_advance(&MigrationEvent::FirstFullCommitDone));
    assert_eq!(sm.state(), &MigrationState::NotStarted);

    sm.advance(MigrationEvent::CapabilitiesReady).unwrap();
    assert!(sm.can_advance(&MigrationEvent::KeyPackagesReady));
    assert!(!sm.can_advance(&MigrationEvent::CapabilitiesReady));
    assert_eq!(sm.state(), &MigrationState::CapabilitiesCollected);
}

#[test]
fn advance_at_records_started_and_last_transition_timestamps() {
    let mut sm = MigrationStateMachine::new(conv_id());
    assert_eq!(sm.started_at(), None);
    assert_eq!(sm.last_transition_at(), None);

    sm.advance_at(MigrationEvent::CapabilitiesReady, 100)
        .unwrap();
    assert_eq!(sm.started_at(), Some(100));
    assert_eq!(sm.last_transition_at(), Some(100));

    sm.advance_at(MigrationEvent::KeyPackagesReady, 200)
        .unwrap();
    assert_eq!(sm.started_at(), Some(100));
    assert_eq!(sm.last_transition_at(), Some(200));
}

#[test]
fn target_mode_is_recorded_on_mode_selected() {
    let mut sm = MigrationStateMachine::new(conv_id());
    sm.advance(MigrationEvent::CapabilitiesReady).unwrap();
    sm.advance(MigrationEvent::KeyPackagesReady).unwrap();
    assert_eq!(sm.target_mode(), None);
    sm.advance(MigrationEvent::ModeSelected(SecurityMode::PqAuthenticity))
        .unwrap();
    assert_eq!(sm.target_mode(), Some(SecurityMode::PqAuthenticity));
}

#[test]
fn state_machine_implements_clone_debug_and_partial_eq() {
    let sm1 = MigrationStateMachine::new(conv_id());
    let sm2 = sm1.clone();
    assert_eq!(sm1, sm2);
    let _ = format!("{:?}", sm1);
}

#[test]
fn invalid_transition_in_middle_state_does_not_corrupt_machine() {
    let mut sm = MigrationStateMachine::new(conv_id());
    sm.advance(MigrationEvent::CapabilitiesReady).unwrap();
    let err = sm
        .advance(MigrationEvent::ModeSelected(
            SecurityMode::PqConfidentiality,
        ))
        .unwrap_err();
    assert!(matches!(err, MigrationError::InvalidTransition { .. }));
    assert_eq!(sm.state(), &MigrationState::CapabilitiesCollected);
    assert_eq!(sm.target_mode(), None);
}

#[test]
fn failed_carries_reason_string() {
    let mut sm = MigrationStateMachine::new(conv_id());
    sm.advance(MigrationEvent::CapabilitiesReady).unwrap();
    sm.advance(MigrationEvent::Failed("provider crashed".into()))
        .unwrap();
    match sm.state() {
        MigrationState::Failed(reason) => assert_eq!(reason, "provider crashed"),
        other => panic!("expected Failed, got {other:?}"),
    }
}

#[test]
fn lifecycle_projection_classical_when_not_started() {
    let sm = MigrationStateMachine::new(conv_id());
    assert_eq!(
        ConversationLifecycle::from_state_machine(&sm),
        ConversationLifecycle::Classical
    );
}

#[test]
fn lifecycle_projection_upgrade_eligible_after_capabilities() {
    let mut sm = MigrationStateMachine::new(conv_id());
    sm.advance(MigrationEvent::CapabilitiesReady).unwrap();
    assert_eq!(
        ConversationLifecycle::from_state_machine(&sm),
        ConversationLifecycle::UpgradeEligible
    );
}

#[test]
fn lifecycle_projection_apq_active_when_target_is_apq_confidentiality() {
    let mut sm = MigrationStateMachine::new(conv_id());
    sm.advance(MigrationEvent::CapabilitiesReady).unwrap();
    sm.advance(MigrationEvent::KeyPackagesReady).unwrap();
    sm.advance(MigrationEvent::ModeSelected(
        SecurityMode::PqConfidentiality,
    ))
    .unwrap();
    sm.advance(MigrationEvent::BootstrapStarted).unwrap();
    sm.advance(MigrationEvent::BootstrapDone).unwrap();
    sm.advance(MigrationEvent::FirstFullCommitDone).unwrap();
    sm.advance(MigrationEvent::FirstFullCommitDone).unwrap();
    assert_eq!(sm.state(), &MigrationState::Operational);
    assert_eq!(
        ConversationLifecycle::from_state_machine(&sm),
        ConversationLifecycle::ApqActive
    );
}

#[test]
fn lifecycle_projection_failed_carries_reason() {
    let mut sm = MigrationStateMachine::new(conv_id());
    sm.advance(MigrationEvent::Failed("nope".into())).unwrap();
    match ConversationLifecycle::from_state_machine(&sm) {
        ConversationLifecycle::Failed(reason) => assert_eq!(reason, "nope"),
        other => panic!("expected Failed, got {other:?}"),
    }
}

#[test]
fn first_full_commit_done_rejects_mode_selected_and_preserves_target_mode() {
    let mut sm = MigrationStateMachine::new(conv_id());
    sm.advance(MigrationEvent::CapabilitiesReady).unwrap();
    sm.advance(MigrationEvent::KeyPackagesReady).unwrap();
    sm.advance(MigrationEvent::ModeSelected(
        SecurityMode::PqConfidentiality,
    ))
    .unwrap();
    sm.advance(MigrationEvent::BootstrapStarted).unwrap();
    sm.advance(MigrationEvent::BootstrapDone).unwrap();
    sm.advance(MigrationEvent::FirstFullCommitDone).unwrap();
    assert_eq!(sm.state(), &MigrationState::FirstFullCommitDone);
    assert_eq!(sm.target_mode(), Some(SecurityMode::PqConfidentiality));

    let err = sm
        .advance(MigrationEvent::ModeSelected(SecurityMode::PqAuthenticity))
        .unwrap_err();
    assert!(
        matches!(err, MigrationError::InvalidTransition { .. }),
        "expected InvalidTransition, got {err:?}"
    );
    assert_eq!(sm.state(), &MigrationState::FirstFullCommitDone);
    assert_eq!(sm.target_mode(), Some(SecurityMode::PqConfidentiality));

    sm.advance(MigrationEvent::FirstFullCommitDone).unwrap();
    assert_eq!(sm.state(), &MigrationState::Operational);
    assert_eq!(sm.target_mode(), Some(SecurityMode::PqConfidentiality));
}
