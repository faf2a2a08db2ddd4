//! Conversations and their sessions.
//!
//! A conversation runs on one MLS group or on two. A `Classical` conversation has
//! one, and so has one that uses a post-quantum suite directly. A paired (APQ)
//! conversation has a T and a PQ session, and a record that links them.
use crate::bytes::copy_bytes;
use crate::ciphersuite::security_mode::{mode_name, SecurityMode};
use crate::extensions::apq_info::{
    apq_info_error_text, apq_info_validity, ApqInfo, ApqInfoError, ApqInfoView,
};
use crate::group::pq_policy::PqPolicy;
use crate::group::pq_telemetry::{PqTelemetryEvent, PqTelemetryEventView};
use crate::mls::{MlsGroup, MlsGroupView};
use vstd::prelude::*;
use vstd::string::*;

verus! {

/// A conversation.
#[derive(Debug)]
pub struct KChatMlsConversation {
    conversation_id: Vec<u8>,
    mode: SecurityMode,
    t_group: Option<MlsGroup>,
    pq_group: Option<MlsGroup>,
    apq_info: Option<ApqInfo>,
    pending_full_commit: bool,
    last_full_commit_epoch: u64,
    pq_policy: PqPolicy,
}

/// The contents of a conversation.
#[verifier::ext_equal]
pub struct ConversationView {
    /// The identifier of the conversation.
    pub conversation_id: Seq<u8>,
    /// The mode.
    pub mode: SecurityMode,
    /// The T session, or the only one.
    pub t_group: Option<MlsGroupView>,
    /// The PQ session of a paired conversation.
    pub pq_group: Option<MlsGroupView>,
    /// The record that links the two sessions.
    pub apq_info: Option<ApqInfoView>,
    /// Whether a FULL commit is under way.
    pub pending_full_commit: bool,
    /// The epoch of the last FULL commit, or 0.
    pub last_full_commit_epoch: u64,
    /// The policy.
    pub pq_policy: PqPolicy,
}

/// The view of an optional group.
pub open spec fn opt_group(group: Option<MlsGroup>) -> Option<MlsGroupView> {
    match group {
        Some(g) => Some(g@),
        None => None,
    }
}

/// The view of an optional record.
pub open spec fn opt_record(info: Option<ApqInfo>) -> Option<ApqInfoView> {
    match info {
        Some(i) => Some(i@),
        None => None,
    }
}

impl View for KChatMlsConversation {
    type V = ConversationView;

    closed spec fn view(&self) -> ConversationView {
        ConversationView {
            conversation_id: self.conversation_id@,
            mode: self.mode,
            t_group: opt_group(self.t_group),
            pq_group: opt_group(self.pq_group),
            apq_info: opt_record(self.apq_info),
            pending_full_commit: self.pending_full_commit,
            last_full_commit_epoch: self.last_full_commit_epoch,
            pq_policy: self.pq_policy,
        }
    }
}

/// `true` for a paired conversation: a post-quantum mode, a PQ session and a link
/// record.
pub open spec fn runs_paired(c: ConversationView) -> bool {
    c.mode != SecurityMode::Classical && c.pq_group is Some && c.apq_info is Some
}

/// What every new conversation meets: it has a T session, and the PQ session, the
/// link record and the mode fit together.
pub open spec fn conversation_wf(c: ConversationView) -> bool {
    &&& c.t_group is Some
    &&& c.pq_group is Some <==> c.apq_info is Some
    &&& c.mode == SecurityMode::Classical ==> c.pq_group is None
    &&& c.apq_info matches Some(info) ==> info.mode == c.mode && apq_info_validity(info) is Ok
}

/// Why a conversation cannot be made.
#[derive(Debug, Clone, Copy, PartialEq, Eq, Structural)]
pub enum KChatConversationError {
    /// A classical conversation with post-quantum material.
    ClassicalWithPqMaterial,
    /// A direct post-quantum conversation with a classical mode.
    DirectPqWithClassicalMode {
        /// The mode.
        got: SecurityMode,
    },
    /// A paired conversation with a classical mode.
    ApqWithClassicalMode {
        /// The mode.
        got: SecurityMode,
    },
    /// The link record has another mode than the conversation.
    ApqInfoModeMismatch {
        /// The mode of the conversation.
        expected: SecurityMode,
        /// The mode of the record.
        got: SecurityMode,
    },
    /// The link record is not valid.
    InvalidApqInfo(ApqInfoError),
}

/// What becomes of a paired conversation with the given mode and record.
pub open spec fn paired_verdict(mode: SecurityMode, info: ApqInfoView) -> Result<
    (),
    KChatConversationError,
> {
    if mode == SecurityMode::Classical {
        Err(KChatConversationError::ApqWithClassicalMode { got: mode })
    } else if info.mode != mode {
        Err(KChatConversationError::ApqInfoModeMismatch { expected: mode, got: info.mode })
    } else {
        match apq_info_validity(info) {
            Err(e) => Err(KChatConversationError::InvalidApqInfo(e)),
            Ok(_) => Ok(()),
        }
    }
}

/// A new conversation.
pub open spec fn new_conversation(
    conversation_id: Seq<u8>,
    mode: SecurityMode,
    t_group: MlsGroupView,
    pq_group: Option<MlsGroupView>,
    apq_info: Option<ApqInfoView>,
    pq_policy: PqPolicy,
) -> ConversationView {
    ConversationView {
        conversation_id,
        mode,
        t_group: Some(t_group),
        pq_group,
        apq_info,
        pending_full_commit: false,
        last_full_commit_epoch: 0,
        pq_policy,
    }
}

impl KChatMlsConversation {
    /// A classical conversation. This never fails.
    pub fn new_classical(conversation_id: Vec<u8>, t_group: MlsGroup) -> (r: Result<
        Self,
        KChatConversationError,
    >)
        ensures
            r matches Ok(c) && c@ == new_conversation(
                conversation_id@,
                SecurityMode::Classical,
                t_group@,
                None,
                None,
                PqPolicy::Classical,
            ),
    {
        Ok(
            KChatMlsConversation {
                conversation_id,
                mode: SecurityMode::Classical,
                t_group: Some(t_group),
                pq_group: None,
                apq_info: None,
                pending_full_commit: false,
                last_full_commit_epoch: 0,
                pq_policy: PqPolicy::Classical,
            },
        )
    }

    /// A conversation whose only session uses a post-quantum suite.
    pub fn new_direct_pq(
        conversation_id: Vec<u8>,
        mode: SecurityMode,
        pq_group: MlsGroup,
        policy: PqPolicy,
    ) -> (r: Result<Self, KChatConversationError>)
        ensures
            match r {
                Ok(c) => mode != SecurityMode::Classical && c@ == new_conversation(
                    conversation_id@,
                    mode,
                    pq_group@,
                    None,
                    None,
                    policy,
                ),
                Err(e) => mode == SecurityMode::Classical && e
                    == (KChatConversationError::DirectPqWithClassicalMode { got: mode }),
            },
    {
        if matches!(mode, SecurityMode::Classical) {
            return Err(KChatConversationError::DirectPqWithClassicalMode { got: mode });
        }
        Ok(
            KChatMlsConversation {
                conversation_id,
                mode,
                t_group: Some(pq_group),
                pq_group: None,
                apq_info: None,
                pending_full_commit: false,
                last_full_commit_epoch: 0,
                pq_policy: policy,
            },
        )
    }

    /// A paired conversation.
    pub fn new_apq(
        conversation_id: Vec<u8>,
        mode: SecurityMode,
        t_group: MlsGroup,
        pq_group: MlsGroup,
        apq_info: ApqInfo,
        policy: PqPolicy,
    ) -> (r: Result<Self, KChatConversationError>)
        ensures
            match (r, paired_verdict(mode, apq_info@)) {
                (Ok(c), Ok(_)) => c@ == new_conversation(
                    conversation_id@,
                    mode,
                    t_group@,
                    Some(pq_group@),
                    Some(apq_info@),
                    policy,
                ),
                (Err(e), Err(f)) => e == f,
                _ => false,
            },
    {
        if matches!(mode, SecurityMode::Classical) {
            return Err(KChatConversationError::ApqWithClassicalMode { got: mode });
        }
        if apq_info.mode != mode {
            return Err(
                KChatConversationError::ApqInfoModeMismatch { expected: mode, got: apq_info.mode },
            );
        }
        if let Err(e) = apq_info.validate() {
            return Err(KChatConversationError::InvalidApqInfo(e));
        }
        Ok(
            KChatMlsConversation {
                conversation_id,
                mode,
                t_group: Some(t_group),
                pq_group: Some(pq_group),
                apq_info: Some(apq_info),
                pending_full_commit: false,
                last_full_commit_epoch: 0,
                pq_policy: policy,
            },
        )
    }

    /// The identifier of the conversation, which is no MLS group identifier.
    pub fn conversation_id(&self) -> (r: &[u8])
        ensures
            r@ == self@.conversation_id,
    {
        self.conversation_id.as_slice()
    }

    /// The mode.
    pub fn mode(&self) -> (r: SecurityMode)
        ensures
            r == self@.mode,
    {
        self.mode
    }

    /// The policy.
    pub fn pq_policy(&self) -> (r: PqPolicy)
        ensures
            r == self@.pq_policy,
    {
        self.pq_policy
    }

    /// The T session, or the only one.
    pub fn t_group(&self) -> (r: Option<&MlsGroup>)
        ensures
            match r {
                Some(g) => self@.t_group == Some(g@),
                None => self@.t_group is None,
            },
    {
        match &self.t_group {
            Some(g) => Some(g),
            None => None,
        }
    }

    /// The T session, or the only one, to be changed.
    pub fn t_group_mut(&mut self) -> (r: Option<&mut MlsGroup>)
        ensures
            match r {
                Some(g) => old(self)@.t_group == Some(g@) && final(self)@ == (ConversationView {
                    t_group: Some(final(g)@),
                    ..old(self)@
                }),
                None => old(self)@.t_group is None && final(self)@ == old(self)@,
            },
    {
        match &mut self.t_group {
            Some(g) => Some(g),
            None => None,
        }
    }

    /// The PQ session of a paired conversation.
    pub fn pq_group(&self) -> (r: Option<&MlsGroup>)
        ensures
            match r {
                Some(g) => self@.pq_group == Some(g@),
                None => self@.pq_group is None,
            },
    {
        match &self.pq_group {
            Some(g) => Some(g),
            None => None,
        }
    }

    /// The PQ session of a paired conversation, to be changed.
    pub fn pq_group_mut(&mut self) -> (r: Option<&mut MlsGroup>)
        ensures
            match r {
                Some(g) => old(self)@.pq_group == Some(g@) && final(self)@ == (ConversationView {
                    pq_group: Some(final(g)@),
                    ..old(self)@
                }),
                None => old(self)@.pq_group is None && final(self)@ == old(self)@,
            },
    {
        match &mut self.pq_group {
            Some(g) => Some(g),
            None => None,
        }
    }

    /// The link record of a paired conversation.
    pub fn apq_info(&self) -> (r: Option<&ApqInfo>)
        ensures
            match r {
                Some(i) => self@.apq_info == Some(i@),
                None => self@.apq_info is None,
            },
    {
        match &self.apq_info {
            Some(i) => Some(i),
            None => None,
        }
    }

    /// Whether the conversation is classical.
    pub fn is_classical(&self) -> (r: bool)
        ensures
            r == (self@.mode == SecurityMode::Classical),
    {
        matches!(self.mode, SecurityMode::Classical)
    }

    /// Whether the conversation is in a post-quantum mode.
    pub fn is_pq(&self) -> (r: bool)
        ensures
            r == (self@.mode != SecurityMode::Classical),
    {
        !matches!(self.mode, SecurityMode::Classical)
    }

    /// Whether the conversation is paired.
    pub fn is_apq(&self) -> (r: bool)
        ensures
            r == runs_paired(self@),
    {
        self.is_pq() && self.pq_group.is_some() && self.apq_info.is_some()
    }

    /// Whether a FULL commit is under way.
    pub fn pending_full_commit(&self) -> (r: bool)
        ensures
            r == self@.pending_full_commit,
    {
        self.pending_full_commit
    }

    /// Notes whether a FULL commit is under way.
    pub fn set_pending_full_commit(&mut self, pending: bool)
        ensures
            final(self)@ == (ConversationView { pending_full_commit: pending, ..old(self)@ }),
    {
        self.pending_full_commit = pending;
    }

    /// The epoch of the last FULL commit, or 0.
    pub fn last_full_commit_epoch(&self) -> (r: u64)
        ensures
            r == self@.last_full_commit_epoch,
    {
        self.last_full_commit_epoch
    }

    /// Notes that a FULL commit has landed.
    pub fn record_full_commit(&mut self, epoch: u64)
        ensures
            final(self)@ == (ConversationView {
                last_full_commit_epoch: epoch,
                pending_full_commit: false,
                ..old(self)@
            }),
    {
        self.last_full_commit_epoch = epoch;
        self.pending_full_commit = false;
    }

    /// Replaces the link record. The change has to be checked before.
    pub fn set_apq_info(&mut self, apq_info: ApqInfo)
        ensures
            final(self)@ == (ConversationView { apq_info: Some(apq_info@), ..old(self)@ }),
    {
        self.apq_info = Some(apq_info);
    }

    /// The event that tells of a resync of this conversation.
    pub fn resync_triggered(&self, status: &str) -> (r: PqTelemetryEvent)
        ensures
            r@ == (PqTelemetryEventView::ResyncTriggered {
                conversation_id: self@.conversation_id,
                status: status@,
            }),
    {
        PqTelemetryEvent::ResyncTriggered {
            conversation_id: copy_bytes(self.conversation_id.as_slice()),
            status: status.to_owned(),
        }
    }
}

/// Whatever the constructors make is well formed, and only the last one makes
/// paired conversations.
pub proof fn new_conversations_are_well_formed(
    conversation_id: Seq<u8>,
    mode: SecurityMode,
    t_group: MlsGroupView,
    pq_group: MlsGroupView,
    apq_info: ApqInfoView,
    policy: PqPolicy,
)
    ensures
        ({
            let c = new_conversation(conversation_id, mode, t_group, None, None, policy);
            conversation_wf(c) && !runs_paired(c)
        }),
        paired_verdict(mode, apq_info) is Ok ==> {
            let c = new_conversation(
                conversation_id,
                mode,
                t_group,
                Some(pq_group),
                Some(apq_info),
                policy,
            );
            conversation_wf(c) && runs_paired(c)
        },
{
}

/// The text of an error.
pub open spec fn conversation_error_text(e: KChatConversationError) -> Seq<char> {
    match e {
        KChatConversationError::ClassicalWithPqMaterial => "Classical conversation must not have a PQ group or APQInfo"@,
        KChatConversationError::DirectPqWithClassicalMode { got } => "DIRECT_PQ conversation must use a PQ security mode, got "@ + mode_name(got),
        KChatConversationError::ApqWithClassicalMode { got } => "APQ conversation must use a PQ security mode, got "@ + mode_name(got),
        KChatConversationError::ApqInfoModeMismatch { expected, got } => "APQ conversation mode "@ + mode_name(expected) + " does not match APQInfo mode "@ + mode_name(got),
        KChatConversationError::InvalidApqInfo(inner) => "APQInfo failed validation: "@ + apq_info_error_text(inner),
    }
}

impl KChatConversationError {
    /// The text of an error.
    pub fn message(&self) -> (r: String)
        ensures
            r@ == conversation_error_text(*self),
    {
        match self {
            KChatConversationError::ClassicalWithPqMaterial => "Classical conversation must not have a PQ group or APQInfo".to_owned(),
            KChatConversationError::DirectPqWithClassicalMode { got } => {
                let mut text: String = "DIRECT_PQ conversation must use a PQ security mode, got ".to_owned();
                text.append(got.name());
                text
            },
            KChatConversationError::ApqWithClassicalMode { got } => {
                let mut text: String = "APQ conversation must use a PQ security mode, got ".to_owned();
                text.append(got.name());
                text
            },
            KChatConversationError::ApqInfoModeMismatch { expected, got } => {
                let mut text: String = "APQ conversation mode ".to_owned();
                text.append(expected.name());
                text.append(" does not match APQInfo mode ");
                text.append(got.name());
                text
            },
            KChatConversationError::InvalidApqInfo(inner) => {
                let mut text: String = "APQInfo failed validation: ".to_owned();
                text.append(inner.message().as_str());
                text
            },
        }
    }
}

/// A paired conversation can be made exactly with a post-quantum mode and a valid record
/// of the same mode. What is wrong is named: the mode first, then the mode of the
/// record, then the record.
pub proof fn paired_conversation_is_made_iff(mode: SecurityMode, info: ApqInfoView)
    ensures
        paired_verdict(mode, info) is Ok <==> mode != SecurityMode::Classical && info.mode == mode
            && apq_info_validity(info) is Ok,
        match paired_verdict(mode, info) {
            Ok(_) => true,
            Err(KChatConversationError::ApqWithClassicalMode { got }) => got == mode && mode
                == SecurityMode::Classical,
            Err(KChatConversationError::ApqInfoModeMismatch { expected, got }) => mode
                != SecurityMode::Classical && expected == mode && got == info.mode && got != mode,
            Err(KChatConversationError::InvalidApqInfo(e)) => mode != SecurityMode::Classical
                && info.mode == mode && apq_info_validity(info) == Err::<(), ApqInfoError>(e),
            Err(_) => false,
        },
{
}

/// A new conversation holds what it was made of. No FULL commit is under way, and none
/// is on record.
pub proof fn new_conversation_holds_what_it_was_made_of(
    conversation_id: Seq<u8>,
    mode: SecurityMode,
    t_group: MlsGroupView,
    pq_group: Option<MlsGroupView>,
    apq_info: Option<ApqInfoView>,
    policy: PqPolicy,
)
    ensures
        ({
            let c = new_conversation(conversation_id, mode, t_group, pq_group, apq_info, policy);
            &&& c.conversation_id == conversation_id
            &&& c.mode == mode
            &&& c.t_group == Some(t_group)
            &&& c.pq_group == pq_group
            &&& c.apq_info == apq_info
            &&& c.pq_policy == policy
            &&& !c.pending_full_commit
            &&& c.last_full_commit_epoch == 0
        }),
{
}

/// A conversation is paired exactly when it is in a post-quantum mode and has both a PQ
/// session and a link record.
pub proof fn paired_means_all_three(c: ConversationView)
    ensures
        runs_paired(c) ==> c.mode != SecurityMode::Classical,
        runs_paired(c) ==> c.pq_group is Some,
        runs_paired(c) ==> c.apq_info is Some,
        c.pq_group is Some && c.apq_info is Some && (c.mode == SecurityMode::PqConfidentiality
            || c.mode == SecurityMode::PqAuthenticity) ==> runs_paired(c),
{
}

} // verus!
