//! Bringing the sessions of a paired conversation together again.
//!
//! A FULL commit is a pair of commits, and a client may miss one half. The
//! functions here tell how far the sessions are apart, and lead through the
//! recovery. Processing and merging a commit, exporting a secret and storing a key
//! is done elsewhere: each step of a recovery says what to do next, and takes the
//! answer.
use crate::ciphersuite::security_mode::SecurityMode;
use crate::extensions::apq_info::{drift, epoch_drift};
use crate::group::apq_commit::{
    commit_error_text, full_commit_refusal, prepare_full_commit, ApqCommitError, FullCommitResult,
    APQ_PSK_LABEL, APQ_PSK_LENGTH,
};
use crate::group::kchat_conversation::{runs_paired, ConversationView, KChatMlsConversation};
use crate::group::pq_policy::{CommitTrigger, PqPolicy};
use crate::group::pq_telemetry::{PqTelemetryEvent, PqTelemetryEventView};
use crate::bytes::copy_bytes;
use crate::mls::{
    merged_group, MergedCommit, MlsGroupView, PreSharedKeyId, ProcessedContent,
};
use vstd::prelude::*;
use vstd::string::*;

verus! {

/// How far the sessions may be apart before small steps no longer help.
pub const MAX_EPOCH_DRIFT: u64 = 1;

/// How the sessions stand to each other.
#[derive(Debug, Clone, Copy, PartialEq, Eq, Structural)]
pub enum DesyncStatus {
    /// They are in step.
    InSync,
    /// The PQ session is ahead.
    PqAhead {
        /// By how many epochs.
        delta: u64,
    },
    /// The T session is ahead.
    TAhead {
        /// By how many epochs.
        delta: u64,
    },
    /// They are too far apart.
    DriftExceeded {
        /// By how many epochs.
        delta: u64,
    },
}

/// What is known of the sessions.
#[derive(Debug, Clone, Copy, PartialEq, Eq, Structural)]
pub struct DesyncReport {
    /// How they stand to each other.
    pub status: DesyncStatus,
    /// The epoch of the T session, if there is one.
    pub t_epoch: Option<u64>,
    /// The epoch of the PQ session, if there is one.
    pub pq_epoch: Option<u64>,
    /// Whether a FULL commit is under way.
    pub pending_full_commit: bool,
}

impl DesyncReport {
    /// Whether the sessions are out of step.
    pub fn is_desynced(&self) -> (r: bool)
        ensures
            r == !(self.status is InSync),
    {
        !matches!(self.status, DesyncStatus::InSync)
    }
}

/// The outcome of a recovery step.
#[derive(Debug, Clone, Copy, PartialEq, Eq, Structural)]
pub struct ResyncResult {
    /// Whether the sessions are in step again.
    pub recovered: bool,
    /// The epoch of the T session.
    pub t_epoch: u64,
    /// The epoch of the PQ session.
    pub pq_epoch: u64,
}

/// Why a recovery fails.
#[derive(Debug, PartialEq, Eq)]
pub enum ApqResyncError {
    /// The conversation is not paired.
    NotApqConversation,
    /// There is no T session.
    NoTSession,
    /// There is no PQ session.
    NoPqSession,
    /// The missed PQ commit could not be processed.
    PqProcessingFailed(String),
    /// The missed T commit could not be processed.
    TProcessingFailed(String),
    /// The staged commit could not be merged.
    MergeFailed(String),
    /// The missed message is no commit.
    NotACommit,
    /// The key could not be exported.
    ExportSecretFailed(String),
    /// No random bytes could be had.
    RandomGenerationFailed(String),
    /// The key could not be stored.
    PskStoreFailed(String),
    /// The FULL commit of a forced resync was refused.
    ForcedFullCommitFailed(ApqCommitError),
}

/// An `ApqResyncError` with its text as characters.
pub enum ApqResyncErrorView {
    /// See `ApqResyncError::NotApqConversation`.
    NotApqConversation,
    /// See `ApqResyncError::NoTSession`.
    NoTSession,
    /// See `ApqResyncError::NoPqSession`.
    NoPqSession,
    /// See `ApqResyncError::PqProcessingFailed`.
    PqProcessingFailed(Seq<char>),
    /// See `ApqResyncError::TProcessingFailed`.
    TProcessingFailed(Seq<char>),
    /// See `ApqResyncError::MergeFailed`.
    MergeFailed(Seq<char>),
    /// See `ApqResyncError::NotACommit`.
    NotACommit,
    /// See `ApqResyncError::ExportSecretFailed`.
    ExportSecretFailed(Seq<char>),
    /// See `ApqResyncError::RandomGenerationFailed`.
    RandomGenerationFailed(Seq<char>),
    /// See `ApqResyncError::PskStoreFailed`.
    PskStoreFailed(Seq<char>),
    /// See `ApqResyncError::ForcedFullCommitFailed`.
    ForcedFullCommitFailed(ApqCommitError),
}

impl View for ApqResyncError {
    type V = ApqResyncErrorView;

    open spec fn view(&self) -> ApqResyncErrorView {
        match self {
            ApqResyncError::NotApqConversation => ApqResyncErrorView::NotApqConversation,
            ApqResyncError::NoTSession => ApqResyncErrorView::NoTSession,
            ApqResyncError::NoPqSession => ApqResyncErrorView::NoPqSession,
            ApqResyncError::PqProcessingFailed(s) => ApqResyncErrorView::PqProcessingFailed(s@),
            ApqResyncError::TProcessingFailed(s) => ApqResyncErrorView::TProcessingFailed(s@),
            ApqResyncError::MergeFailed(s) => ApqResyncErrorView::MergeFailed(s@),
            ApqResyncError::NotACommit => ApqResyncErrorView::NotACommit,
            ApqResyncError::ExportSecretFailed(s) => ApqResyncErrorView::ExportSecretFailed(s@),
            ApqResyncError::RandomGenerationFailed(
                s,
            ) => ApqResyncErrorView::RandomGenerationFailed(s@),
            ApqResyncError::PskStoreFailed(s) => ApqResyncErrorView::PskStoreFailed(s@),
            ApqResyncError::ForcedFullCommitFailed(
                e,
            ) => ApqResyncErrorView::ForcedFullCommitFailed(*e),
        }
    }
}

/// How two sessions at these epochs stand to each other.
pub open spec fn status_of(t: u64, pq: u64) -> DesyncStatus {
    if t == pq {
        DesyncStatus::InSync
    } else if drift(t, pq) > MAX_EPOCH_DRIFT {
        DesyncStatus::DriftExceeded { delta: drift(t, pq) }
    } else if pq > t {
        DesyncStatus::PqAhead { delta: drift(t, pq) }
    } else {
        DesyncStatus::TAhead { delta: drift(t, pq) }
    }
}

/// The epoch of a group, if there is one.
pub open spec fn epoch_of(group: Option<MlsGroupView>) -> Option<u64> {
    match group {
        Some(g) => Some(g.epoch),
        None => None,
    }
}

/// What is known of the sessions of a conversation. A single session is always in
/// step.
pub open spec fn report_of(c: ConversationView) -> DesyncReport {
    DesyncReport {
        status: match (c.t_group, c.pq_group) {
            (Some(t), Some(pq)) => status_of(t.epoch, pq.epoch),
            _ => DesyncStatus::InSync,
        },
        t_epoch: epoch_of(c.t_group),
        pq_epoch: epoch_of(c.pq_group),
        pending_full_commit: c.pending_full_commit,
    }
}

/// Tells how the sessions stand to each other.
pub fn detect_desync(conversation: &KChatMlsConversation) -> (r: DesyncReport)
    ensures
        r == report_of(conversation@),
{
    let t_epoch = match conversation.t_group() {
        Some(g) => Some(g.epoch()),
        None => None,
    };
    let pq_epoch = match conversation.pq_group() {
        Some(g) => Some(g.epoch()),
        None => None,
    };
    let pending_full_commit = conversation.pending_full_commit();
    let status = match (t_epoch, pq_epoch) {
        (Some(t), Some(pq)) => {
            let delta: u64 = epoch_drift(t, pq);
            if delta == 0 {
                DesyncStatus::InSync
            } else if delta > MAX_EPOCH_DRIFT {
                DesyncStatus::DriftExceeded { delta }
            } else if pq > t {
                DesyncStatus::PqAhead { delta }
            } else {
                DesyncStatus::TAhead { delta }
            }
        },
        _ => DesyncStatus::InSync,
    };
    DesyncReport { status, t_epoch, pq_epoch, pending_full_commit }
}

/// The outcome that a report amounts to. A missing session counts as epoch 0.
pub open spec fn result_of(report: DesyncReport) -> ResyncResult {
    ResyncResult {
        recovered: report.status is InSync,
        t_epoch: match report.t_epoch {
            Some(e) => e,
            None => 0,
        },
        pq_epoch: match report.pq_epoch {
            Some(e) => e,
            None => 0,
        },
    }
}

fn resync_result(report: &DesyncReport) -> (r: ResyncResult)
    ensures
        r == result_of(*report),
{
    ResyncResult {
        recovered: matches!(report.status, DesyncStatus::InSync),
        t_epoch: match report.t_epoch {
            Some(e) => e,
            None => 0,
        },
        pq_epoch: match report.pq_epoch {
            Some(e) => e,
            None => 0,
        },
    }
}

/// A recovery that waits for the missed PQ commit to be processed on the PQ
/// session.
#[derive(Debug)]
pub struct PqResync {
    /// The name under which the key will be stored: the one that the T commit
    /// refers to.
    pub psk_id: PreSharedKeyId,
}

/// A recovery that waits for the staged commit to be merged into the PQ session.
#[derive(Debug)]
pub struct PqResyncMerge {
    /// See `PqResync::psk_id`.
    pub psk_id: PreSharedKeyId,
}

/// A recovery that waits for a secret of the PQ session to be exported.
#[derive(Debug)]
pub struct PqResyncExport {
    /// See `PqResync::psk_id`.
    pub psk_id: PreSharedKeyId,
    /// The label for the export.
    pub label: String,
    /// The context for the export.
    pub context: Vec<u8>,
    /// How many bytes to export.
    pub length: usize,
}

/// A recovery that waits for the key to be stored.
#[derive(Debug)]
pub struct PqResyncStore {
    /// The name under which to store the key.
    pub psk_id: PreSharedKeyId,
    /// The key.
    pub psk: Vec<u8>,
}

/// What stands in the way of a recovery, whichever session it begins with.
pub open spec fn resync_refusal(c: ConversationView) -> Option<ApqResyncErrorView> {
    if !runs_paired(c) {
        Some(ApqResyncErrorView::NotApqConversation)
    } else if c.t_group is None {
        Some(ApqResyncErrorView::NoTSession)
    } else {
        None
    }
}

/// Begins a recovery with a missed PQ commit. The first thing to do is to process
/// that commit on the PQ session. `expected_psk_id` is the name that the missed T
/// commit refers to. The event tells of the recovery.
pub fn resync_from_pq(
    conversation: &KChatMlsConversation,
    expected_psk_id: PreSharedKeyId,
) -> (r: Result<(PqResync, PqTelemetryEvent), ApqResyncError>)
    ensures
        match (r, resync_refusal(conversation@)) {
            (Ok((next, event)), None) => next.psk_id@ == expected_psk_id@ && event@
                == (PqTelemetryEventView::ResyncTriggered {
                conversation_id: conversation@.conversation_id,
                status: "resync_from_pq"@,
            }),
            (Err(e), Some(f)) => e@ == f,
            _ => false,
        },
{
    if !conversation.is_apq() {
        return Err(ApqResyncError::NotApqConversation);
    }
    if conversation.pq_group().is_none() {
        return Err(ApqResyncError::NoPqSession);
    }
    if conversation.t_group().is_none() {
        return Err(ApqResyncError::NoTSession);
    }
    let event = conversation.resync_triggered("resync_from_pq");
    Ok((PqResync { psk_id: expected_psk_id }, event))
}

/// What becomes of a processed message that has to be a commit.
pub open spec fn commit_or_error(
    reply: Result<ProcessedContent, Seq<char>>,
    failed: spec_fn(Seq<char>) -> ApqResyncErrorView,
) -> Option<ApqResyncErrorView> {
    match reply {
        Err(text) => Some(failed(text)),
        Ok(content) => if content == ProcessedContent::StagedCommitMessage {
            None
        } else {
            Some(ApqResyncErrorView::NotACommit)
        },
    }
}

/// A reply with its text as characters.
pub open spec fn reply_view<T>(reply: Result<T, String>) -> Result<T, Seq<char>> {
    match reply {
        Ok(v) => Ok(v),
        Err(text) => Err(text@),
    }
}

impl PqResync {
    /// Takes what became of the missed commit. If it is a staged commit now, that
    /// has to be merged next.
    pub fn processed(self, reply: Result<ProcessedContent, String>) -> (r: Result<
        PqResyncMerge,
        ApqResyncError,
    >)
        ensures
            match (
                r,
                commit_or_error(
                    reply_view(reply),
                    |text: Seq<char>| ApqResyncErrorView::PqProcessingFailed(text),
                ),
            ) {
                (Ok(next), None) => next.psk_id@ == self.psk_id@,
                (Err(e), Some(f)) => e@ == f,
                _ => false,
            },
    {
        match reply {
            Err(text) => Err(ApqResyncError::PqProcessingFailed(text)),
            Ok(ProcessedContent::StagedCommitMessage) => Ok(PqResyncMerge { psk_id: self.psk_id }),
            Ok(_) => Err(ApqResyncError::NotACommit),
        }
    }
}

impl PqResyncMerge {
    /// Takes what became of the merge. If the PQ session has moved on, a secret of
    /// it has to be exported next, under a label of its own and with the
    /// conversation as the context.
    pub fn merged(
        self,
        conversation: &mut KChatMlsConversation,
        reply: Result<MergedCommit, String>,
    ) -> (r: Result<PqResyncExport, ApqResyncError>)
        ensures
            match (reply, old(conversation)@.pq_group) {
                (Err(text), _) => r matches Err(e) && e@ == ApqResyncErrorView::MergeFailed(text@)
                    && final(conversation)@ == old(conversation)@,
                (Ok(_), None) => r matches Err(e) && e@ == ApqResyncErrorView::NoPqSession
                    && final(conversation)@ == old(conversation)@,
                (Ok(merged), Some(group)) => r matches Ok(next) && next.psk_id@ == self.psk_id@
                    && next.label@ == APQ_PSK_LABEL@ && next.context@ == old(conversation)@.conversation_id && next.length == APQ_PSK_LENGTH && final(conversation)@ == (
                ConversationView {
                    pq_group: Some(merged_group(group, merged)),
                    ..old(conversation)@
                }),
            },
    {
        let merged = match reply {
            Err(text) => {
                return Err(ApqResyncError::MergeFailed(text));
            },
            Ok(merged) => merged,
        };
        match conversation.pq_group_mut() {
            None => {
                return Err(ApqResyncError::NoPqSession);
            },
            Some(group) => {
                group.record_merge(merged);
            },
        }
        Ok(
            PqResyncExport {
                psk_id: self.psk_id,
                label: APQ_PSK_LABEL.to_owned(),
                context: copy_bytes(conversation.conversation_id()),
                length: APQ_PSK_LENGTH,
            },
        )
    }
}

impl PqResyncExport {
    /// Takes the exported secret. It has to be stored next, under the name that the
    /// T commit refers to.
    pub fn exported(self, reply: Result<Vec<u8>, String>) -> (r: Result<
        PqResyncStore,
        ApqResyncError,
    >)
        ensures
            match reply {
                Ok(secret) => r matches Ok(next) && next.psk_id@ == self.psk_id@ && next.psk@
                    == secret@,
                Err(text) => r matches Err(e) && e@ == ApqResyncErrorView::ExportSecretFailed(text@),
            },
    {
        match reply {
            Ok(psk) => Ok(PqResyncStore { psk_id: self.psk_id, psk }),
            Err(text) => Err(ApqResyncError::ExportSecretFailed(text)),
        }
    }
}

impl PqResyncStore {
    /// Takes what became of storing the key, and ends the recovery on the PQ side.
    /// The T commit is still owed, so a FULL commit counts as under way.
    pub fn stored(self, conversation: &mut KChatMlsConversation, reply: Result<(), String>) -> (r:
        Result<(ResyncResult, PreSharedKeyId), ApqResyncError>)
        ensures
            match reply {
                Err(text) => r matches Err(e) && e@ == ApqResyncErrorView::PskStoreFailed(text@)
                    && final(conversation)@ == old(conversation)@,
                Ok(_) => r matches Ok((result, psk_id)) && psk_id@ == self.psk_id@ && result
                    == result_of(report_of(old(conversation)@)) && final(conversation)@ == (
                ConversationView { pending_full_commit: true, ..old(conversation)@ }),
            },
    {
        if let Err(text) = reply {
            return Err(ApqResyncError::PskStoreFailed(text));
        }
        conversation.set_pending_full_commit(true);
        let report = detect_desync(conversation);
        Ok((resync_result(&report), self.psk_id))
    }
}

/// A recovery that waits for the missed T commit to be processed on the T session.
#[derive(Debug, Clone, Copy, PartialEq, Eq, Structural)]
pub struct TResync;

/// A recovery that waits for the staged commit to be merged into the T session.
#[derive(Debug, Clone, Copy, PartialEq, Eq, Structural)]
pub struct TResyncMerge;

/// Begins a recovery with a missed T commit. The key that it refers to has to be
/// stored already. The first thing to do is to process the commit on the T session.
/// The event tells of the recovery.
pub fn resync_from_t(conversation: &KChatMlsConversation) -> (r: Result<
    (TResync, PqTelemetryEvent),
    ApqResyncError,
>)
    ensures
        match (r, resync_refusal(conversation@)) {
            (Ok((_, event)), None) => event@ == (PqTelemetryEventView::ResyncTriggered {
                conversation_id: conversation@.conversation_id,
                status: "resync_from_t"@,
            }),
            (Err(e), Some(f)) => e@ == f,
            _ => false,
        },
{
    if !conversation.is_apq() {
        return Err(ApqResyncError::NotApqConversation);
    }
    if conversation.t_group().is_none() {
        return Err(ApqResyncError::NoTSession);
    }
    let event = conversation.resync_triggered("resync_from_t");
    Ok((TResync, event))
}

impl TResync {
    /// Takes what became of the missed commit. If it is a staged commit now, that
    /// has to be merged next.
    pub fn processed(self, reply: Result<ProcessedContent, String>) -> (r: Result<
        TResyncMerge,
        ApqResyncError,
    >)
        ensures
            match (
                r,
                commit_or_error(
                    reply_view(reply),
                    |text: Seq<char>| ApqResyncErrorView::TProcessingFailed(text),
                ),
            ) {
                (Ok(_), None) => true,
                (Err(e), Some(f)) => e@ == f,
                _ => false,
            },
    {
        match reply {
            Err(text) => Err(ApqResyncError::TProcessingFailed(text)),
            Ok(ProcessedContent::StagedCommitMessage) => Ok(TResyncMerge),
            Ok(_) => Err(ApqResyncError::NotACommit),
        }
    }
}

/// The conversation after a missed T commit has been merged. Where that brings the
/// sessions in step, it counts as a FULL commit.
pub open spec fn after_t_merge(c: ConversationView, group: MlsGroupView) -> ConversationView {
    let moved = ConversationView { t_group: Some(group), ..c };
    if report_of(moved).status is InSync {
        ConversationView {
            last_full_commit_epoch: group.epoch,
            pending_full_commit: false,
            ..moved
        }
    } else {
        moved
    }
}

impl TResyncMerge {
    /// Takes what became of the merge, and ends the recovery on the T side.
    pub fn merged(
        self,
        conversation: &mut KChatMlsConversation,
        reply: Result<MergedCommit, String>,
    ) -> (r: Result<ResyncResult, ApqResyncError>)
        ensures
            match (reply, old(conversation)@.t_group) {
                (Err(text), _) => r matches Err(e) && e@ == ApqResyncErrorView::MergeFailed(text@)
                    && final(conversation)@ == old(conversation)@,
                (Ok(_), None) => r matches Err(e) && e@ == ApqResyncErrorView::NoTSession && final(conversation)@ == old(conversation)@,
                (Ok(merged), Some(group)) => final(conversation)@ == after_t_merge(
                    old(conversation)@,
                    merged_group(group, merged),
                ) && r == Ok::<ResyncResult, ApqResyncError>(
                    result_of(report_of(final(conversation)@)),
                ),
            },
    {
        let merged = match reply {
            Err(text) => {
                return Err(ApqResyncError::MergeFailed(text));
            },
            Ok(merged) => merged,
        };
        match conversation.t_group_mut() {
            None => {
                return Err(ApqResyncError::NoTSession);
            },
            Some(group) => {
                group.record_merge(merged);
            },
        }
        let report = detect_desync(conversation);
        let result = resync_result(&report);
        if result.recovered {
            conversation.record_full_commit(result.t_epoch);
        }
        Ok(result)
    }
}

/// The last resort: starts over with a FULL commit. Whether one was under way does
/// not matter any more. The event, where there is one, tells of the recovery.
pub fn force_resync<P, S>(
    conversation: &mut KChatMlsConversation,
    provider: &P,
    signer: &S,
) -> (r: (Option<PqTelemetryEvent>, Result<FullCommitResult, ApqResyncError>))
    ensures
        !runs_paired(old(conversation)@) ==> r.0 is None && (r.1 matches Err(e) && e@
            == ApqResyncErrorView::NotApqConversation) && final(conversation)@ == old(conversation)@,
        runs_paired(old(conversation)@) ==> {
            let cleared = ConversationView { pending_full_commit: false, ..old(conversation)@ };
            &&& final(conversation)@ == cleared
            &&& r.0 matches Some(event) && event@ == (PqTelemetryEventView::ResyncTriggered {
                conversation_id: old(conversation)@.conversation_id,
                status: "force_resync"@,
            })
            &&& r.1 matches Err(e) && e@ == ApqResyncErrorView::ForcedFullCommitFailed(
                full_commit_refusal(cleared, CommitTrigger::SecurityLevelIncrease),
            )
        },
{
    if !conversation.is_apq() {
        return (None, Err(ApqResyncError::NotApqConversation));
    }
    let event = conversation.resync_triggered("force_resync");
    conversation.set_pending_full_commit(false);
    let outcome = match prepare_full_commit(
        conversation,
        CommitTrigger::SecurityLevelIncrease,
        Vec::new(),
        provider,
        signer,
    ) {
        Ok(commit) => Ok(commit),
        Err(e) => Err(ApqResyncError::ForcedFullCommitFailed(e)),
    };
    (Some(event), outcome)
}

/// Two sessions are in step exactly when they are at the same epoch, and the reported
/// distance is the distance of their epochs.
pub proof fn report_is_exact(t: u64, pq: u64)
    ensures
        status_of(t, pq) is InSync <==> t == pq,
        status_of(t, pq) matches DesyncStatus::PqAhead { delta } ==> pq == t + delta && delta == 1,
        status_of(t, pq) matches DesyncStatus::TAhead { delta } ==> t == pq + delta && delta == 1,
        status_of(t, pq) matches DesyncStatus::DriftExceeded { delta } ==> delta > MAX_EPOCH_DRIFT
            && (t == pq + delta || pq == t + delta),
{
}

/// A client that missed both halves of a FULL commit is in step again after it has
/// taken the PQ commit and then the T commit, and the epoch is on record. In
/// between a FULL commit counts as under way.
pub proof fn both_halves_recover(
    c: ConversationView,
    pq: MergedCommit,
    t: MergedCommit,
)
    requires
        resync_refusal(c) is None,
        t.epoch == pq.epoch,
    ensures
        ({
            let between = ConversationView {
                pq_group: Some(merged_group(c.pq_group->Some_0, pq)),
                pending_full_commit: true,
                ..c
            };
            let after = after_t_merge(between, merged_group(between.t_group->Some_0, t));
            &&& resync_refusal(between) is None
            &&& report_of(after).status is InSync
            &&& !after.pending_full_commit
            &&& after.last_full_commit_epoch == t.epoch
            &&& after.apq_info == c.apq_info
            &&& after.mode == c.mode
        }),
{
}

/// A forced resync gets as far as the policy lets a FULL commit get: on a paired
/// conversation whose policy uses a PQ session, no check refuses it.
pub proof fn forced_resync_passes_all_checks(c: ConversationView)
    requires
        runs_paired(c),
        c.t_group is Some,
        c.pq_policy != PqPolicy::Classical,
    ensures
        full_commit_refusal(
            ConversationView { pending_full_commit: false, ..c },
            CommitTrigger::SecurityLevelIncrease,
        ) == ApqCommitError::NotImplemented,
{
}

/// The text of an error.
pub open spec fn resync_error_text(e: ApqResyncErrorView) -> Seq<char> {
    match e {
        ApqResyncErrorView::NotApqConversation => "conversation is not APQ"@,
        ApqResyncErrorView::NoTSession => "conversation has no T session"@,
        ApqResyncErrorView::NoPqSession => "conversation has no PQ session"@,
        ApqResyncErrorView::PqProcessingFailed(reason) => "PQ commit processing failed: "@ + reason,
        ApqResyncErrorView::TProcessingFailed(reason) => "T commit processing failed: "@ + reason,
        ApqResyncErrorView::MergeFailed(reason) => "staged commit merge failed: "@ + reason,
        ApqResyncErrorView::NotACommit => "missed message is not a commit"@,
        ApqResyncErrorView::ExportSecretFailed(reason) => "apq_psk derivation failed: "@ + reason,
        ApqResyncErrorView::RandomGenerationFailed(reason) => "random generation failed: "@ + reason,
        ApqResyncErrorView::PskStoreFailed(reason) => "apq_psk store failed: "@ + reason,
        ApqResyncErrorView::ForcedFullCommitFailed(inner) => "forced FULL commit failed: "@ + commit_error_text(inner),
    }
}

impl ApqResyncError {
    /// The text of an error.
    pub fn message(&self) -> (r: String)
        ensures
            r@ == resync_error_text(self@),
    {
        match self {
            ApqResyncError::NotApqConversation => "conversation is not APQ".to_owned(),
            ApqResyncError::NoTSession => "conversation has no T session".to_owned(),
            ApqResyncError::NoPqSession => "conversation has no PQ session".to_owned(),
            ApqResyncError::PqProcessingFailed(reason) => {
                let mut text: String = "PQ commit processing failed: ".to_owned();
                text.append(reason.as_str());
                text
            },
            ApqResyncError::TProcessingFailed(reason) => {
                let mut text: String = "T commit processing failed: ".to_owned();
                text.append(reason.as_str());
                text
            },
            ApqResyncError::MergeFailed(reason) => {
                let mut text: String = "staged commit merge failed: ".to_owned();
                text.append(reason.as_str());
                text
            },
            ApqResyncError::NotACommit => "missed message is not a commit".to_owned(),
            ApqResyncError::ExportSecretFailed(reason) => {
                let mut text: String = "apq_psk derivation failed: ".to_owned();
                text.append(reason.as_str());
                text
            },
            ApqResyncError::RandomGenerationFailed(reason) => {
                let mut text: String = "random generation failed: ".to_owned();
                text.append(reason.as_str());
                text
            },
            ApqResyncError::PskStoreFailed(reason) => {
                let mut text: String = "apq_psk store failed: ".to_owned();
                text.append(reason.as_str());
                text
            },
            ApqResyncError::ForcedFullCommitFailed(inner) => {
                let mut text: String = "forced FULL commit failed: ".to_owned();
                text.append(inner.message().as_str());
                text
            },
        }
    }
}

/// Every pair of epochs has its status: in step at the same epoch, one session ahead by
/// one epoch, and too far apart from two epochs on, whichever is ahead.
pub proof fn status_follows_the_epochs(t: u64, pq: u64)
    ensures
        status_of(t, pq) == DesyncStatus::InSync <==> t == pq,
        status_of(t, pq) == (DesyncStatus::PqAhead { delta: 1 }) <==> pq == t + 1,
        status_of(t, pq) == (DesyncStatus::TAhead { delta: 1 }) <==> t == pq + 1,
        status_of(t, pq) is DriftExceeded <==> pq >= t + 2 || t >= pq + 2,
        status_of(t, pq) matches DesyncStatus::DriftExceeded { delta } ==> if t > pq {
            delta == t - pq
        } else {
            delta == pq - t
        },
{
}

/// A report tells the epochs that there are and whether a FULL commit is under way.
/// Without two sessions it says that they are in step.
pub proof fn report_tells_what_there_is(c: ConversationView)
    ensures
        report_of(c).pending_full_commit == c.pending_full_commit,
        report_of(c).t_epoch is Some <==> c.t_group is Some,
        report_of(c).pq_epoch is Some <==> c.pq_group is Some,
        c.t_group matches Some(g) ==> report_of(c).t_epoch == Some(g.epoch),
        c.pq_group matches Some(g) ==> report_of(c).pq_epoch == Some(g.epoch),
        c.t_group is None || c.pq_group is None ==> report_of(c).status is InSync,
        c.t_group is Some && c.pq_group is Some ==> (report_of(c).status is InSync
            <==> c.t_group->Some_0.epoch == c.pq_group->Some_0.epoch),
        c.t_group is Some && c.pq_group is Some ==> report_of(c).status == status_of(
            c.t_group->Some_0.epoch,
            c.pq_group->Some_0.epoch,
        ),
{
}

/// The outcome of a recovery says whether the sessions are in step, and at which epochs
/// they are.
pub proof fn outcome_follows_the_report(c: ConversationView)
    ensures
        result_of(report_of(c)).recovered <==> report_of(c).status is InSync,
        c.t_group matches Some(g) ==> result_of(report_of(c)).t_epoch == g.epoch,
        c.pq_group matches Some(g) ==> result_of(report_of(c)).pq_epoch == g.epoch,
        c.t_group is None ==> result_of(report_of(c)).t_epoch == 0,
        c.pq_group is None ==> result_of(report_of(c)).pq_epoch == 0,
{
}

/// A recovery can begin exactly where there are both sessions and a link record in a
/// post-quantum mode. What is missing is named, and a missing T session last.
pub proof fn recovery_begins_iff_paired(c: ConversationView)
    ensures
        resync_refusal(c) is None <==> c.mode != SecurityMode::Classical && c.pq_group is Some
            && c.apq_info is Some && c.t_group is Some,
        resync_refusal(c) == Some(ApqResyncErrorView::NoTSession) <==> c.mode
            != SecurityMode::Classical && c.pq_group is Some && c.apq_info is Some && c.t_group is
            None,
        resync_refusal(c) == Some(ApqResyncErrorView::NotApqConversation) <==> c.mode
            == SecurityMode::Classical || c.pq_group is None || c.apq_info is None,
{
}

/// A recovery goes on only with a staged commit. Any other message is called no commit,
/// and a failure is passed on with its text.
pub proof fn only_commits_recover(
    reply: Result<ProcessedContent, Seq<char>>,
    failed: spec_fn(Seq<char>) -> ApqResyncErrorView,
)
    ensures
        commit_or_error(reply, failed) is None <==> reply == Ok::<ProcessedContent, Seq<char>>(
            ProcessedContent::StagedCommitMessage,
        ),
        reply matches Ok(content) ==> content != ProcessedContent::StagedCommitMessage
            ==> commit_or_error(reply, failed) == Some(ApqResyncErrorView::NotACommit),
        reply matches Err(text) ==> commit_or_error(reply, failed) == Some(failed(text)),
{
}

/// After a T commit was merged the conversation has that T session. If it is at the epoch
/// of the PQ session, the FULL commit is on record and none is under way any more.
/// Otherwise what was on record stays. Nothing else changes.
pub proof fn merged_t_commit_ends_a_full_commit_iff_in_step(
    c: ConversationView,
    group: MlsGroupView,
)
    ensures
        ({
            let after = after_t_merge(c, group);
            &&& after.t_group == Some(group)
            &&& after.pq_group == c.pq_group
            &&& after.apq_info == c.apq_info
            &&& after.mode == c.mode
            &&& after.conversation_id == c.conversation_id
            &&& after.pq_policy == c.pq_policy
            &&& c.pq_group matches Some(pq) ==> if pq.epoch == group.epoch {
                after.last_full_commit_epoch == group.epoch && !after.pending_full_commit
            } else {
                after.last_full_commit_epoch == c.last_full_commit_epoch
                    && after.pending_full_commit == c.pending_full_commit
            }
            &&& c.pq_group is None ==> after.last_full_commit_epoch == group.epoch
                && !after.pending_full_commit
        }),
{
}

} // verus!
