//! Sessions that have come apart, and how they come together.
use kchat_mls::group::apq_commit::ApqCommitError;
use kchat_mls::group::apq_resync::{ApqResyncError, DesyncReport, DesyncStatus, MAX_EPOCH_DRIFT};

#[test]
fn desync_status_in_sync_zero_delta() {
    let report = DesyncReport {
        status: DesyncStatus::InSync,
        t_epoch: Some(7),
        pq_epoch: Some(7),
        pending_full_commit: false,
    };
    assert!(!report.is_desynced());
}

#[test]
fn desync_status_pq_ahead_one_epoch() {
    let report = DesyncReport {
        status: DesyncStatus::PqAhead { delta: 1 },
        t_epoch: Some(7),
        pq_epoch: Some(8),
        pending_full_commit: true,
    };
    assert!(report.is_desynced());
}

#[test]
fn desync_status_drift_exceeded_two_epochs() {
    let report = DesyncReport {
        status: DesyncStatus::DriftExceeded { delta: 2 },
        t_epoch: Some(5),
        pq_epoch: Some(7),
        pending_full_commit: false,
    };
    assert!(report.is_desynced());
}

#[test]
fn max_epoch_drift_is_one() {
    assert_eq!(MAX_EPOCH_DRIFT, 1);
}

#[test]
fn not_apq_conversation_error_renders_clearly() {
    let err = ApqResyncError::NotApqConversation;
    assert_eq!(err.message(), "conversation is not APQ");
}

#[test]
fn not_a_commit_error_renders_clearly() {
    let err = ApqResyncError::NotACommit;
    assert_eq!(err.message(), "missed message is not a commit");
}

#[test]
fn pq_processing_failed_error_propagates_underlying_string() {
    let err = ApqResyncError::PqProcessingFailed("invalid signature".into());
    let rendered = err.message();
    assert!(rendered.contains("PQ commit processing failed"));
    assert!(rendered.contains("invalid signature"));
}

#[test]
fn forced_full_commit_failed_wraps_apq_commit_error() {
    let err = ApqResyncError::ForcedFullCommitFailed(ApqCommitError::FullCommitInFlight);
    let rendered = err.message();
    assert!(rendered.contains("forced FULL commit failed"));
    assert!(rendered.contains("already in flight"));
}
