//! What keeps a commit from being made.
use kchat_mls::ciphersuite::security_mode::SecurityMode;
use kchat_mls::group::apq_commit::{ApqCommitError, FullCommitResult};
use kchat_mls::group::pq_policy::{CommitTrigger, CommitType, PqPolicy};
use kchat_mls::mls::{MlsMessageOut, PreSharedKeyId};

struct DummyProvider;
struct DummySigner;

#[test]
fn full_commit_error_on_non_apq_conversation_renders_clearly() {
    let err = ApqCommitError::NotApqConversation;
    assert_eq!(
        err.message(),
        "FULL commit requested on a non-APQ conversation"
    );
}

#[test]
fn partial_commit_error_on_full_required_trigger_renders_clearly() {
    let err = ApqCommitError::TriggerRequiresFull {
        trigger: CommitTrigger::AddMember,
    };
    assert_eq!(
        err.message(),
        "trigger AddMember requires a FULL commit under the active policy"
    );
}

#[test]
fn full_commit_error_on_partial_only_trigger_renders_clearly() {
    let err = ApqCommitError::TriggerOnlyRequiresPartial {
        trigger: CommitTrigger::PeriodicRefresh,
    };
    let rendered = err.message();
    assert!(
        rendered.contains("only requires a PARTIAL commit"),
        "unexpected message: {rendered}"
    );
    assert!(
        rendered.contains("prepare_partial_commit"),
        "unexpected message: {rendered}"
    );
    assert!(
        rendered.contains("PeriodicRefresh"),
        "unexpected message: {rendered}"
    );
}

#[test]
fn full_commit_error_on_no_commit_trigger_renders_clearly() {
    let err = ApqCommitError::TriggerIsNoCommit {
        trigger: CommitTrigger::NormalMessage,
    };
    assert_eq!(
        err.message(),
        "trigger NormalMessage is a no-op (not a commit) under the active policy"
    );
}

#[test]
fn full_commit_in_flight_error_renders_clearly() {
    let err = ApqCommitError::FullCommitInFlight;
    assert!(err.message().contains("already in flight"));
}

#[test]
fn not_implemented_error_renders_clearly() {
    let err = ApqCommitError::NotImplemented;
    assert!(err.message().contains("not yet implemented"));
}

#[test]
fn full_commit_policy_check_table_matches_pq_policy() {
    for trigger in [
        CommitTrigger::AddMember,
        CommitTrigger::RemoveMember,
        CommitTrigger::ExternalJoin,
        CommitTrigger::CredentialRotation,
        CommitTrigger::SecurityLevelIncrease,
    ] {
        assert_eq!(
            PqPolicy::PqConfidentiality.required_commit_type(trigger),
            CommitType::Full,
            "trigger {trigger:?} must be FULL under PqConfidentiality"
        );
    }
    assert_eq!(
        PqPolicy::PqRequired.required_commit_type(CommitTrigger::PeriodicRefresh),
        CommitType::Full
    );
}

#[test]
fn partial_commit_policy_allows_periodic_refresh_under_confidentiality() {
    assert_eq!(
        PqPolicy::PqConfidentiality.required_commit_type(CommitTrigger::PeriodicRefresh),
        CommitType::Partial
    );
}

#[test]
fn full_commit_result_can_be_constructed_from_components() {
    fn _accept(r: FullCommitResult) -> (MlsMessageOut, PreSharedKeyId, MlsMessageOut) {
        (r.pq_commit, r.apq_psk_id, r.t_commit)
    }
}

#[test]
fn _provider_and_signer_generics_are_unconstrained_in_skeleton() {
    fn _check<P, S>(_p: &P, _s: &S) {}
    _check(&DummyProvider, &DummySigner);
}

#[test]
fn full_full_partial_commit_modes_are_distinct() {
    for mode in [
        SecurityMode::Classical,
        SecurityMode::PqConfidentiality,
        SecurityMode::PqAuthenticity,
    ] {
        let _ = mode;
    }
}
