//! Which commits a policy asks for.
use kchat_mls::group::pq_policy::{CommitTrigger, CommitType, PqPolicy};

const ALL_POLICIES: &[PqPolicy] = &[
    PqPolicy::Classical,
    PqPolicy::PqConfidentiality,
    PqPolicy::PqRequired,
];

const ALL_TRIGGERS: &[CommitTrigger] = &[
    CommitTrigger::AddMember,
    CommitTrigger::RemoveMember,
    CommitTrigger::ExternalJoin,
    CommitTrigger::CredentialRotation,
    CommitTrigger::SecurityLevelIncrease,
    CommitTrigger::PeriodicRefresh,
    CommitTrigger::NormalMessage,
];

#[test]
fn ordering_classical_lt_confidentiality_lt_required() {
    assert!(PqPolicy::Classical < PqPolicy::PqConfidentiality);
    assert!(PqPolicy::PqConfidentiality < PqPolicy::PqRequired);
}

#[test]
fn classical_policy_never_uses_pq_session() {
    assert!(!PqPolicy::Classical.uses_pq_session());
    assert!(PqPolicy::PqConfidentiality.uses_pq_session());
    assert!(PqPolicy::PqRequired.uses_pq_session());
}

#[test]
fn add_is_full_under_pq_policies() {
    assert_eq!(
        PqPolicy::PqConfidentiality.required_commit_type(CommitTrigger::AddMember),
        CommitType::Full
    );
    assert_eq!(
        PqPolicy::PqRequired.required_commit_type(CommitTrigger::AddMember),
        CommitType::Full
    );
}

#[test]
fn remove_is_full_under_pq_policies() {
    assert_eq!(
        PqPolicy::PqConfidentiality.required_commit_type(CommitTrigger::RemoveMember),
        CommitType::Full
    );
    assert_eq!(
        PqPolicy::PqRequired.required_commit_type(CommitTrigger::RemoveMember),
        CommitType::Full
    );
}

#[test]
fn external_join_is_full_under_pq_policies() {
    assert_eq!(
        PqPolicy::PqConfidentiality.required_commit_type(CommitTrigger::ExternalJoin),
        CommitType::Full
    );
    assert_eq!(
        PqPolicy::PqRequired.required_commit_type(CommitTrigger::ExternalJoin),
        CommitType::Full
    );
}

#[test]
fn credential_rotation_is_full_under_pq_policies() {
    assert_eq!(
        PqPolicy::PqConfidentiality.required_commit_type(CommitTrigger::CredentialRotation),
        CommitType::Full
    );
    assert_eq!(
        PqPolicy::PqRequired.required_commit_type(CommitTrigger::CredentialRotation),
        CommitType::Full
    );
}

#[test]
fn security_increase_is_full_under_pq_policies() {
    assert_eq!(
        PqPolicy::PqConfidentiality.required_commit_type(CommitTrigger::SecurityLevelIncrease),
        CommitType::Full
    );
    assert_eq!(
        PqPolicy::PqRequired.required_commit_type(CommitTrigger::SecurityLevelIncrease),
        CommitType::Full
    );
}

#[test]
fn periodic_refresh_partial_on_conf_full_on_required() {
    assert_eq!(
        PqPolicy::PqConfidentiality.required_commit_type(CommitTrigger::PeriodicRefresh),
        CommitType::Partial
    );
    assert_eq!(
        PqPolicy::PqRequired.required_commit_type(CommitTrigger::PeriodicRefresh),
        CommitType::Full
    );
}

#[test]
fn normal_message_never_commits_on_pq_policies() {
    assert_eq!(
        PqPolicy::PqConfidentiality.required_commit_type(CommitTrigger::NormalMessage),
        CommitType::NoCommit
    );
    assert_eq!(
        PqPolicy::PqRequired.required_commit_type(CommitTrigger::NormalMessage),
        CommitType::NoCommit
    );
    assert_eq!(
        PqPolicy::Classical.required_commit_type(CommitTrigger::NormalMessage),
        CommitType::NoCommit
    );
}

#[test]
fn classical_policy_returns_partial_for_all_membership_triggers() {
    for trigger in [
        CommitTrigger::AddMember,
        CommitTrigger::RemoveMember,
        CommitTrigger::ExternalJoin,
        CommitTrigger::CredentialRotation,
        CommitTrigger::PeriodicRefresh,
    ] {
        assert_eq!(
            PqPolicy::Classical.required_commit_type(trigger),
            CommitType::Partial,
            "trigger {trigger:?} should be Partial under Classical"
        );
    }
}

#[test]
fn requires_full_matches_required_commit_type() {
    for &policy in ALL_POLICIES {
        for &trigger in ALL_TRIGGERS {
            let expect_full = matches!(
                policy.required_commit_type(trigger),
                CommitType::Full
            );
            assert_eq!(
                policy.requires_full(trigger),
                expect_full,
                "requires_full disagrees for {policy:?} / {trigger:?}"
            );
        }
    }
}

#[test]
fn allows_partial_matches_required_commit_type() {
    for &policy in ALL_POLICIES {
        for &trigger in ALL_TRIGGERS {
            let expect_partial = matches!(
                policy.required_commit_type(trigger),
                CommitType::Partial
            );
            assert_eq!(
                policy.allows_partial(trigger),
                expect_partial,
                "allows_partial disagrees for {policy:?} / {trigger:?}"
            );
        }
    }
}

#[test]
fn full_partial_none_are_disjoint_for_every_combo() {
    for &policy in ALL_POLICIES {
        for &trigger in ALL_TRIGGERS {
            assert!(
                !(policy.requires_full(trigger) && policy.allows_partial(trigger)),
                "{policy:?} / {trigger:?} both full and partial?"
            );
        }
    }
}
