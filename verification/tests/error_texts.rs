//! The texts of errors.
use kchat_mls::ciphersuite::security_mode::SecurityMode;
use kchat_mls::credentials::capability_protocol::ProtocolError;
use kchat_mls::credentials::capability_registry::RegistryError;
use kchat_mls::extensions::apq_info::ApqInfoError;
use kchat_mls::group::apq_commit::ApqCommitError;
use kchat_mls::group::apq_resync::ApqResyncError;
use kchat_mls::group::conversation_metadata::MetadataError;
use kchat_mls::group::conversation_upgrade::ConversationUpgradeError;
use kchat_mls::group::kchat_conversation::KChatConversationError;
use kchat_mls::group::migration_state::{MigrationError, MigrationEvent, MigrationState};
use kchat_mls::group::no_downgrade::DowngradeError;
use kchat_mls::group::reinit_upgrade::ReInitError;
use kchat_mls::group::storage_migration::{
    MigrationError as StorageError, MigrationStep, MigrationValidationError,
    StorageMigrationState,
};
use kchat_mls::key_packages::key_package_service::ServiceError;
use kchat_mls::key_packages::multi_ciphersuite::MultiCiphersuiteError;
use kchat_mls::key_packages::rate_limiter::RateLimitError;
use kchat_mls::messages::apq_delivery::{ApqDeliveryOrder, ApqOrderingError};
use kchat_mls::messages::apq_welcome::ApqWelcomeError;
use kchat_mls::messages::delivery_service::DeliveryError;
use kchat_mls::text::format_variant;
use kchat_mls::types::Ciphersuite;

fn text(s: &str) -> String {
    s.to_string()
}

#[test]
fn services_say_what_is_wrong() {
    assert_eq!(
        RateLimitError::Exceeded {
            user_id: b"al".to_vec(),
            device_id: vec![],
            limit: 2,
            window_secs: 60
        }
        .message(),
        format!("device {:?}/{:?} exceeded 2 fetches per 60s window", b"al".to_vec(), Vec::<u8>::new())
    );
    assert_eq!(
        ServiceError::PerDeviceCapExceeded {
            user_id: vec![255],
            device_id: vec![0, 10, 200],
            cap: 16
        }
        .message(),
        "device [255]/[0, 10, 200] would exceed per-device KP cap of 16"
    );
    assert_eq!(
        ServiceError::DuplicateEntry {
            user_id: vec![1],
            device_id: vec![2],
            ciphersuite: Ciphersuite::MLS_128_DHKEMP256_AES128GCM_SHA256_P256
        }
        .message(),
        "duplicate KeyPackage for [1]/[2]/MLS_128_DHKEMP256_AES128GCM_SHA256_P256"
    );
    let messages = [
        DeliveryError::FullCommitWithoutPairId.message(),
        DeliveryError::PqHalfMissing { pair_id: 42 }.message(),
        DeliveryError::DuplicatePqHalf { pair_id: 7 }.message(),
    ];
    assert!(messages[1].contains("42"));
    assert!(messages[2].contains('7'));
    assert_ne!(messages[0], messages[1]);
}

#[test]
fn migrations_say_what_is_wrong() {
    let state = MigrationState::Failed(text("a \"b\""));
    let event = MigrationEvent::ModeSelected(SecurityMode::PqAuthenticity);
    assert_eq!(state.text(), format!("{state:?}"));
    assert_eq!(event.text(), format!("{event:?}"));
    assert_eq!(
        MigrationError::InvalidTransition {
            state: MigrationState::NotStarted,
            event
        }
        .message(),
        "invalid transition: cannot apply event ModeSelected(PqAuthenticity) from state NotStarted"
    );
    assert_eq!(
        MigrationError::Terminal { state }.message(),
        "cannot advance from terminal state Failed(\"a \\\"b\\\"\")"
    );
    for state in [
        MigrationState::CapabilitiesCollected,
        MigrationState::KeyPackagesPublished,
        MigrationState::ModeSelected,
        MigrationState::BootstrapInitiated,
        MigrationState::BootstrapComplete,
        MigrationState::FirstFullCommitDone,
        MigrationState::Operational,
    ] {
        assert_eq!(state.text(), format!("{state:?}"));
    }
    assert_eq!(format_variant("A", "b"), "A(b)");
}

#[test]
fn storages_say_what_is_wrong() {
    assert_eq!(
        StorageError::StepFailed {
            step: MigrationStep::MigrateApqInfo,
            reason: text("disk")
        }
        .message(),
        "step MigrateApqInfo failed: disk"
    );
    assert_eq!(
        StorageError::PersistenceFailed {
            reason: text("disk")
        }
        .message(),
        "persisting migration state failed: disk"
    );
    assert_eq!(
        StorageError::PreviouslyFailed {
            reason: text("disk")
        }
        .message(),
        "migration is in Failed state: disk"
    );
    for state in [
        StorageMigrationState::NotStarted,
        StorageMigrationState::InProgress(MigrationStep::MigratePskMaterial),
        StorageMigrationState::Complete,
        StorageMigrationState::Failed(text("\u{e9}\n")),
    ] {
        let expected = format!("migration not complete: {state:?}");
        assert_eq!(
            MigrationValidationError::NotComplete { state }.message(),
            expected
        );
    }
    assert_eq!(
        MigrationValidationError::InvariantBroken {
            step: MigrationStep::MigrateCommitCounters
        }
        .message(),
        "post-migration invariant broken: step MigrateCommitCounters"
    );
}

#[test]
fn orders_and_welcomes_say_what_is_wrong() {
    assert_eq!(
        ApqOrderingError::InvalidOrder { value: 255 }.message(),
        "invalid APQ delivery order discriminant 255"
    );
    assert_eq!(
        ApqOrderingError::FullCommitNotPqFirst {
            declared: ApqDeliveryOrder::Independent
        }
        .message(),
        "FULL-commit pair must be ordered PqFirst, but ordering was declared as Independent"
    );
    assert_eq!(
        ApqWelcomeError::MissingTWelcome.message(),
        "APQ-mode bootstrap missing t_welcome"
    );
    assert_eq!(
        ApqWelcomeError::UnexpectedTWelcome.message(),
        "direct-PQ bootstrap unexpectedly carries a t_welcome"
    );
    assert_eq!(
        ApqWelcomeError::InvalidApqInfo(ApqInfoError::DuplicateGroupIds).message(),
        format!("APQInfo invalid: {}", ApqInfoError::DuplicateGroupIds.message())
    );
}

#[test]
fn inner_errors_are_quoted_in_outer_ones() {
    let downgrade = DowngradeError::ModeDowngrade {
        from: SecurityMode::PqAuthenticity,
        to: SecurityMode::Classical,
    };
    assert!(MetadataError::DowngradeRejected(downgrade)
        .message()
        .contains(&downgrade.message()));
    assert!(
        ApqResyncError::ForcedFullCommitFailed(ApqCommitError::NoTSession)
            .message()
            .ends_with(&ApqCommitError::NoTSession.message())
    );
    assert!(ProtocolError::Registry(RegistryError::InvalidSignature)
        .message()
        .contains(&RegistryError::InvalidSignature.message()));
    assert!(
        KChatConversationError::InvalidApqInfo(ApqInfoError::ClassicalMode)
            .message()
            .contains(&ApqInfoError::ClassicalMode.message())
    );
}

#[test]
fn numbers_and_modes_are_filled_in() {
    let mode = SecurityMode::PqConfidentiality;
    assert!(ConversationUpgradeError::NoCommonCiphersuite { mode }
        .message()
        .contains("PqConfidentiality"));
    assert!(ApqInfoError::EpochDrift { drift: 12, max: 1 }
        .message()
        .contains("12"));
    assert!(MultiCiphersuiteError::TooManyCiphersuites {
        requested: 20,
        cap: 16
    }
    .message()
    .contains("20"));
    assert!(ReInitError::MergeFailed(text("why"))
        .message()
        .ends_with("why"));
}
