//! FULL and PARTIAL commits.
//!
//! A FULL commit is a commit on the PQ session, from which a pre-shared key is
//! exported, and then a commit on the T session that refers to that key. A PARTIAL
//! commit touches the T session only. Both functions check that the commit may be
//! made now. The commits themselves are not built yet.
use crate::ciphersuite::security_mode::SecurityMode;
use crate::group::kchat_conversation::{runs_paired, ConversationView, KChatMlsConversation};
use crate::group::pq_policy::{
    required_commit, trigger_name, CommitTrigger, CommitType, };
use crate::mls::{MlsMessageOut, PreSharedKeyId, Proposal};
use vstd::prelude::*;
use vstd::string::*;

verus! {

/// The label under which the key that ties the sessions together is exported.
pub const APQ_PSK_LABEL: &'static str = "kchat-apq-psk";

/// The length of that key in bytes.
pub const APQ_PSK_LENGTH: usize = 32;

/// A FULL commit, ready to be sent: the PQ commit goes first.
#[derive(Debug)]
pub struct FullCommitResult {
    /// The commit on the PQ session.
    pub pq_commit: MlsMessageOut,
    /// The name of the key that the T commit refers to.
    pub apq_psk_id: PreSharedKeyId,
    /// The commit on the T session.
    pub t_commit: MlsMessageOut,
}

/// A PARTIAL commit, ready to be sent.
#[derive(Debug)]
pub struct PartialCommitResult {
    /// The commit on the T session.
    pub t_commit: MlsMessageOut,
}

/// Why a commit is not made.
#[derive(Debug, Clone, Copy, PartialEq, Eq, Structural)]
pub enum ApqCommitError {
    /// The conversation is not paired.
    NotApqConversation,
    /// There is no T session.
    NoTSession,
    /// There is no PQ session.
    NoPqSession,
    /// There is no link record.
    NoApqInfo,
    /// The trigger asks for a FULL commit.
    TriggerRequiresFull {
        /// The trigger.
        trigger: CommitTrigger,
    },
    /// The trigger asks for a PARTIAL commit only.
    TriggerOnlyRequiresPartial {
        /// The trigger.
        trigger: CommitTrigger,
    },
    /// The trigger asks for no commit.
    TriggerIsNoCommit {
        /// The trigger.
        trigger: CommitTrigger,
    },
    /// A FULL commit is under way.
    FullCommitInFlight,
    /// Building the commit is not supported yet.
    NotImplemented,
}

/// Why a FULL commit is not made.
pub open spec fn full_commit_refusal(c: ConversationView, trigger: CommitTrigger) -> ApqCommitError {
    if !runs_paired(c) {
        ApqCommitError::NotApqConversation
    } else if c.t_group is None {
        ApqCommitError::NoTSession
    } else if c.pending_full_commit {
        ApqCommitError::FullCommitInFlight
    } else {
        match required_commit(c.pq_policy, trigger) {
            CommitType::Full => ApqCommitError::NotImplemented,
            CommitType::Partial => ApqCommitError::TriggerOnlyRequiresPartial { trigger },
            CommitType::NoCommit => ApqCommitError::TriggerIsNoCommit { trigger },
        }
    }
}

/// Why a PARTIAL commit is not made.
pub open spec fn partial_commit_refusal(
    c: ConversationView,
    trigger: CommitTrigger,
) -> ApqCommitError {
    if c.t_group is None {
        ApqCommitError::NoTSession
    } else if c.pending_full_commit {
        ApqCommitError::FullCommitInFlight
    } else {
        match required_commit(c.pq_policy, trigger) {
            CommitType::Partial => ApqCommitError::NotImplemented,
            CommitType::Full => ApqCommitError::TriggerRequiresFull { trigger },
            CommitType::NoCommit => ApqCommitError::TriggerIsNoCommit { trigger },
        }
    }
}

/// Checks that a FULL commit may be made now. The conversation does not change, so
/// that a refused commit does not stand in the way of later ones.
pub fn prepare_full_commit<P, S>(
    conversation: &mut KChatMlsConversation,
    trigger: CommitTrigger,
    _proposals: Vec<Proposal>,
    _provider: &P,
    _signer: &S,
) -> (r: Result<FullCommitResult, ApqCommitError>)
    ensures
        r matches Err(e) && e == full_commit_refusal(old(conversation)@, trigger),
        final(conversation)@ == old(conversation)@,
{
    if !conversation.is_apq() {
        return Err(ApqCommitError::NotApqConversation);
    }
    if conversation.t_group().is_none() {
        return Err(ApqCommitError::NoTSession);
    }
    if conversation.pq_group().is_none() {
        return Err(ApqCommitError::NoPqSession);
    }
    if conversation.apq_info().is_none() {
        return Err(ApqCommitError::NoApqInfo);
    }
    if conversation.pending_full_commit() {
        return Err(ApqCommitError::FullCommitInFlight);
    }
    match conversation.pq_policy().required_commit_type(trigger) {
        CommitType::Full => {},
        CommitType::Partial => {
            return Err(ApqCommitError::TriggerOnlyRequiresPartial { trigger });
        },
        CommitType::NoCommit => {
            return Err(ApqCommitError::TriggerIsNoCommit { trigger });
        },
    }
    Err(ApqCommitError::NotImplemented)
}

/// Checks that a PARTIAL commit may be made now. The conversation does not change.
pub fn prepare_partial_commit<P, S>(
    conversation: &mut KChatMlsConversation,
    trigger: CommitTrigger,
    _proposals: Vec<Proposal>,
    _provider: &P,
    _signer: &S,
) -> (r: Result<PartialCommitResult, ApqCommitError>)
    ensures
        r matches Err(e) && e == partial_commit_refusal(old(conversation)@, trigger),
        final(conversation)@ == old(conversation)@,
{
    if conversation.t_group().is_none() {
        return Err(ApqCommitError::NoTSession);
    }
    if conversation.pending_full_commit() {
        return Err(ApqCommitError::FullCommitInFlight);
    }
    match conversation.pq_policy().required_commit_type(trigger) {
        CommitType::Partial => {},
        CommitType::Full => {
            return Err(ApqCommitError::TriggerRequiresFull { trigger });
        },
        CommitType::NoCommit => {
            return Err(ApqCommitError::TriggerIsNoCommit { trigger });
        },
    }
    Err(ApqCommitError::NotImplemented)
}

/// No trigger passes the checks of both kinds of commit, and while a FULL commit is
/// under way none passes those of either.
pub proof fn commit_checks_exclude_each_other(c: ConversationView, trigger: CommitTrigger)
    ensures
        !(full_commit_refusal(c, trigger) == ApqCommitError::NotImplemented
            && partial_commit_refusal(c, trigger) == ApqCommitError::NotImplemented),
        c.pending_full_commit ==> full_commit_refusal(c, trigger) != ApqCommitError::NotImplemented
            && partial_commit_refusal(c, trigger) != ApqCommitError::NotImplemented,
{
}

/// A paired conversation under a policy that uses a PQ session passes the checks of
/// a FULL commit whenever the policy asks for one and none is under way.
pub proof fn full_commit_checks_follow_policy(c: ConversationView, trigger: CommitTrigger)
    requires
        runs_paired(c),
        c.t_group is Some,
        !c.pending_full_commit,
    ensures
        full_commit_refusal(c, trigger) == ApqCommitError::NotImplemented <==> required_commit(
            c.pq_policy,
            trigger,
        ) == CommitType::Full,
        partial_commit_refusal(c, trigger) == ApqCommitError::NotImplemented <==> required_commit(
            c.pq_policy,
            trigger,
        ) == CommitType::Partial,
{
}

/// The text of an error.
pub open spec fn commit_error_text(e: ApqCommitError) -> Seq<char> {
    match e {
        ApqCommitError::NotApqConversation => "FULL commit requested on a non-APQ conversation"@,
        ApqCommitError::NoTSession => "PARTIAL commit requested but conversation has no T session"@,
        ApqCommitError::NoPqSession => "FULL commit requested but conversation has no PQ session"@,
        ApqCommitError::NoApqInfo => "FULL commit requested but conversation has no APQInfo"@,
        ApqCommitError::TriggerRequiresFull { trigger } => "trigger "@ + trigger_name(trigger) + " requires a FULL commit under the active policy"@,
        ApqCommitError::TriggerOnlyRequiresPartial { trigger } => "trigger "@ + trigger_name(trigger) + " only requires a PARTIAL commit under the active policy; use prepare_partial_commit instead"@,
        ApqCommitError::TriggerIsNoCommit { trigger } => "trigger "@ + trigger_name(trigger) + " is a no-op (not a commit) under the active policy"@,
        ApqCommitError::FullCommitInFlight => "another FULL commit is already in flight; complete it before starting a new one"@,
        ApqCommitError::NotImplemented => "APQ commit pipeline is not yet implemented; preconditions passed but the underlying commit machinery is deferred to Phase 4/5"@,
    }
}

impl ApqCommitError {
    /// The text of an error.
    pub fn message(&self) -> (r: String)
        ensures
            r@ == commit_error_text(*self),
    {
        match self {
            ApqCommitError::NotApqConversation => "FULL commit requested on a non-APQ conversation".to_owned(),
            ApqCommitError::NoTSession => "PARTIAL commit requested but conversation has no T session".to_owned(),
            ApqCommitError::NoPqSession => "FULL commit requested but conversation has no PQ session".to_owned(),
            ApqCommitError::NoApqInfo => "FULL commit requested but conversation has no APQInfo".to_owned(),
            ApqCommitError::TriggerRequiresFull { trigger } => {
                let mut text: String = "trigger ".to_owned();
                text.append(trigger.name());
                text.append(" requires a FULL commit under the active policy");
                text
            },
            ApqCommitError::TriggerOnlyRequiresPartial { trigger } => {
                let mut text: String = "trigger ".to_owned();
                text.append(trigger.name());
                text.append(" only requires a PARTIAL commit under the active policy; use prepare_partial_commit instead");
                text
            },
            ApqCommitError::TriggerIsNoCommit { trigger } => {
                let mut text: String = "trigger ".to_owned();
                text.append(trigger.name());
                text.append(" is a no-op (not a commit) under the active policy");
                text
            },
            ApqCommitError::FullCommitInFlight => "another FULL commit is already in flight; complete it before starting a new one".to_owned(),
            ApqCommitError::NotImplemented => "APQ commit pipeline is not yet implemented; preconditions passed but the underlying commit machinery is deferred to Phase 4/5".to_owned(),
        }
    }
}

/// Why a FULL commit is refused: a conversation that is not paired comes first, then a
/// missing T session, then a FULL commit under way, and last what the policy asks for.
pub proof fn full_commit_refusal_has_its_reason(c: ConversationView, trigger: CommitTrigger)
    ensures
        ({
            let e = full_commit_refusal(c, trigger);
            let paired = c.mode != SecurityMode::Classical && c.pq_group is Some && c.apq_info is
                Some;
            let due = required_commit(c.pq_policy, trigger);
            &&& e == ApqCommitError::NotApqConversation <==> !paired
            &&& e == ApqCommitError::NoTSession <==> paired && c.t_group is None
            &&& e == ApqCommitError::FullCommitInFlight <==> paired && c.t_group is Some
                && c.pending_full_commit
            &&& e == ApqCommitError::TriggerOnlyRequiresPartial { trigger } <==> paired && c.t_group
                is Some && !c.pending_full_commit && due == CommitType::Partial
            &&& e == ApqCommitError::TriggerIsNoCommit { trigger } <==> paired && c.t_group is Some
                && !c.pending_full_commit && due == CommitType::NoCommit
            &&& e == ApqCommitError::NotImplemented <==> paired && c.t_group is Some
                && !c.pending_full_commit && due == CommitType::Full
        }),
{
}

/// Why a PARTIAL commit is refused: a missing T session comes first, then a FULL commit
/// under way, and last what the policy asks for. It does not matter whether the
/// conversation is paired.
pub proof fn partial_commit_refusal_has_its_reason(c: ConversationView, trigger: CommitTrigger)
    ensures
        ({
            let e = partial_commit_refusal(c, trigger);
            let due = required_commit(c.pq_policy, trigger);
            &&& e == ApqCommitError::NoTSession <==> c.t_group is None
            &&& e == ApqCommitError::FullCommitInFlight <==> c.t_group is Some
                && c.pending_full_commit
            &&& e == ApqCommitError::TriggerRequiresFull { trigger } <==> c.t_group is Some
                && !c.pending_full_commit && due == CommitType::Full
            &&& e == ApqCommitError::TriggerIsNoCommit { trigger } <==> c.t_group is Some
                && !c.pending_full_commit && due == CommitType::NoCommit
            &&& e == ApqCommitError::NotImplemented <==> c.t_group is Some
                && !c.pending_full_commit && due == CommitType::Partial
        }),
{
}

} // verus!
