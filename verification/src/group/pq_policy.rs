//! When a commit has to renew both sessions.
//!
//! A FULL commit renews the T and the PQ session, a PARTIAL one only the T
//! session. Which of them is due depends on why there is a commit and on how
//! strict the conversation is.
use vstd::prelude::*;

verus! {

/// How strict a conversation is. Stricter policies come later.
#[derive(Debug, Clone, Copy, PartialEq, Eq, PartialOrd, Ord, Hash, Structural)]
pub enum PqPolicy {
    /// No PQ session at all.
    Classical,
    /// Changes of membership, of credentials and of the level are FULL.
    PqConfidentiality,
    /// Periodic refreshes are FULL too.
    PqRequired,
}

/// What kind of commit is due.
#[derive(Debug, Clone, Copy, PartialEq, Eq, Hash, Structural)]
pub enum CommitType {
    /// Renew both sessions.
    Full,
    /// Renew the T session only.
    Partial,
    /// No commit.
    NoCommit,
}

/// Why a commit is considered.
#[derive(Debug, Clone, Copy, PartialEq, Eq, Hash, Structural)]
pub enum CommitTrigger {
    /// A member is added.
    AddMember,
    /// A member is removed.
    RemoveMember,
    /// A device joins by an external commit.
    ExternalJoin,
    /// A member changes its credential or signature key.
    CredentialRotation,
    /// The conversation moves to a stronger level.
    SecurityLevelIncrease,
    /// A scheduled refresh.
    PeriodicRefresh,
    /// An application message.
    NormalMessage,
}

/// The name of a trigger.
pub open spec fn trigger_name(trigger: CommitTrigger) -> Seq<char> {
    match trigger {
        CommitTrigger::AddMember => "AddMember"@,
        CommitTrigger::RemoveMember => "RemoveMember"@,
        CommitTrigger::ExternalJoin => "ExternalJoin"@,
        CommitTrigger::CredentialRotation => "CredentialRotation"@,
        CommitTrigger::SecurityLevelIncrease => "SecurityLevelIncrease"@,
        CommitTrigger::PeriodicRefresh => "PeriodicRefresh"@,
        CommitTrigger::NormalMessage => "NormalMessage"@,
    }
}

impl CommitTrigger {
    /// The name of the trigger.
    pub fn name(self) -> (r: &'static str)
        ensures
            r@ == trigger_name(self),
    {
        match self {
            CommitTrigger::AddMember => "AddMember",
            CommitTrigger::RemoveMember => "RemoveMember",
            CommitTrigger::ExternalJoin => "ExternalJoin",
            CommitTrigger::CredentialRotation => "CredentialRotation",
            CommitTrigger::SecurityLevelIncrease => "SecurityLevelIncrease",
            CommitTrigger::PeriodicRefresh => "PeriodicRefresh",
            CommitTrigger::NormalMessage => "NormalMessage",
        }
    }
}

/// The kind of commit that is due.
pub open spec fn required_commit(policy: PqPolicy, trigger: CommitTrigger) -> CommitType {
    if trigger == CommitTrigger::NormalMessage {
        CommitType::NoCommit
    } else if policy == PqPolicy::Classical {
        CommitType::Partial
    } else if trigger == CommitTrigger::PeriodicRefresh && policy == PqPolicy::PqConfidentiality {
        CommitType::Partial
    } else {
        CommitType::Full
    }
}

impl PqPolicy {
    /// The kind of commit that is due.
    pub fn required_commit_type(self, trigger: CommitTrigger) -> (r: CommitType)
        ensures
            r == required_commit(self, trigger),
    {
        match (self, trigger) {
            (PqPolicy::Classical, CommitTrigger::NormalMessage) => CommitType::NoCommit,
            (PqPolicy::Classical, _) => CommitType::Partial,
            (
                PqPolicy::PqConfidentiality | PqPolicy::PqRequired,
                CommitTrigger::AddMember | CommitTrigger::RemoveMember | CommitTrigger::ExternalJoin,
            ) => CommitType::Full,
            (
                PqPolicy::PqConfidentiality | PqPolicy::PqRequired,
                CommitTrigger::CredentialRotation | CommitTrigger::SecurityLevelIncrease,
            ) => CommitType::Full,
            (PqPolicy::PqConfidentiality, CommitTrigger::PeriodicRefresh) => CommitType::Partial,
            (PqPolicy::PqRequired, CommitTrigger::PeriodicRefresh) => CommitType::Full,
            (
                PqPolicy::PqConfidentiality | PqPolicy::PqRequired,
                CommitTrigger::NormalMessage,
            ) => CommitType::NoCommit,
        }
    }

    /// Whether the policy ever asks for a PQ session.
    pub fn uses_pq_session(self) -> (r: bool)
        ensures
            r == (self != PqPolicy::Classical),
    {
        !matches!(self, PqPolicy::Classical)
    }

    /// Whether a FULL commit is due.
    pub fn requires_full(self, trigger: CommitTrigger) -> (r: bool)
        ensures
            r == (required_commit(self, trigger) == CommitType::Full),
    {
        matches!(self.required_commit_type(trigger), CommitType::Full)
    }

    /// Whether a PARTIAL commit will do. A trigger that is no commit is not
    /// PARTIAL.
    pub fn allows_partial(self, trigger: CommitTrigger) -> (r: bool)
        ensures
            r == (required_commit(self, trigger) == CommitType::Partial),
    {
        matches!(self.required_commit_type(trigger), CommitType::Partial)
    }
}

/// Adding, removing and joining are FULL under every policy that uses a PQ
/// session.
pub proof fn membership_changes_are_full(policy: PqPolicy, trigger: CommitTrigger)
    requires
        policy != PqPolicy::Classical,
        trigger == CommitTrigger::AddMember || trigger == CommitTrigger::RemoveMember || trigger
            == CommitTrigger::ExternalJoin,
    ensures
        required_commit(policy, trigger) == CommitType::Full,
{
}

/// An application message is never a commit, and nothing under the classical
/// policy is FULL.
pub proof fn messages_and_classical_are_never_full(policy: PqPolicy, trigger: CommitTrigger)
    ensures
        required_commit(policy, CommitTrigger::NormalMessage) == CommitType::NoCommit,
        required_commit(PqPolicy::Classical, trigger) != CommitType::Full,
{
}

/// A stricter policy never asks for less: what is FULL stays FULL.
pub proof fn stricter_policy_keeps_full(trigger: CommitTrigger)
    ensures
        required_commit(PqPolicy::Classical, trigger) == CommitType::Full ==> required_commit(
            PqPolicy::PqConfidentiality,
            trigger,
        ) == CommitType::Full,
        required_commit(PqPolicy::PqConfidentiality, trigger) == CommitType::Full
            ==> required_commit(PqPolicy::PqRequired, trigger) == CommitType::Full,
{
}

/// What kind of commit is due: none exactly for an application message, a FULL one
/// exactly for everything else under the strictest policy, and for everything else but
/// a periodic refresh under the one below it.
pub proof fn commit_kind_follows_policy_and_trigger(policy: PqPolicy, trigger: CommitTrigger)
    ensures
        required_commit(policy, trigger) == CommitType::NoCommit <==> trigger
            == CommitTrigger::NormalMessage,
        required_commit(PqPolicy::PqRequired, trigger) == CommitType::Full <==> trigger
            != CommitTrigger::NormalMessage,
        required_commit(PqPolicy::PqConfidentiality, trigger) == CommitType::Full <==> trigger
            == CommitTrigger::AddMember || trigger == CommitTrigger::RemoveMember || trigger
            == CommitTrigger::ExternalJoin || trigger == CommitTrigger::CredentialRotation
            || trigger == CommitTrigger::SecurityLevelIncrease,
        required_commit(PqPolicy::Classical, trigger) == CommitType::Partial <==> trigger
            != CommitTrigger::NormalMessage,
{
}

/// Triggers are told apart by their names.
pub proof fn names_tell_triggers_apart(a: CommitTrigger, b: CommitTrigger)
    ensures
        trigger_name(a) == trigger_name(b) ==> a == b,
{
    reveal_strlit("AddMember");
    reveal_strlit("RemoveMember");
    reveal_strlit("ExternalJoin");
    reveal_strlit("CredentialRotation");
    reveal_strlit("SecurityLevelIncrease");
    reveal_strlit("PeriodicRefresh");
    reveal_strlit("NormalMessage");
    assert("AddMember"@.len() == 9 && "RemoveMember"@.len() == 12 && "ExternalJoin"@.len() == 12);
    assert("RemoveMember"@[0] == 'R' && "ExternalJoin"@[0] == 'E');
    assert("CredentialRotation"@.len() == 18 && "SecurityLevelIncrease"@.len() == 21);
    assert("PeriodicRefresh"@.len() == 15 && "NormalMessage"@.len() == 13);
}

} // verus!
