//! Moving a conversation to a new group with another suite.
//!
//! The old group is closed by a commit with a ReInit proposal. A key is then
//! exported from it, which ties the new group to it. Building and merging the
//! commit, exporting the key, drawing random bytes and storing the key is done
//! elsewhere: each step says what to do next, and takes the answer.
use crate::bytes::copy_bytes;
use crate::ciphersuite::security_mode::{
    mode_name, mode_rank, modes_are_strictly_ordered, suite_mode, SecurityMode,
};
use crate::mls::{
    copy_extensions, extension_views, merged_group, Extension, MergedCommit, MlsGroup,
    MlsGroupView, MlsMessageOut, PreSharedKeyId, PreSharedKeyIdView, Proposal, ProposalView,
    ProtocolVersion, PskView, ReInitProposal, ReInitProposalView, ResumptionPskUsage,
};
use crate::types::{ciphersuite_name, Ciphersuite, GroupId};
use vstd::prelude::*;
use vstd::string::*;

verus! {

/// The label under which the key is exported from the old group.
pub const REINIT_PSK_LABEL: &'static str = "kchat-reinit-psk";

/// The length of that key in bytes.
pub const REINIT_PSK_LENGTH: usize = 32;

/// The length of the random part of the key's name.
pub const REINIT_PSK_NONCE_LENGTH: usize = 32;

/// Why a conversation is not moved.
#[derive(Debug, PartialEq, Eq)]
pub enum ReInitError {
    /// The new suite is the old one.
    TargetCiphersuiteSameAsOld {
        /// The suite.
        got: Ciphersuite,
    },
    /// The new suite provides a weaker mode.
    DowngradeAttempt {
        /// The mode of the old suite.
        old: SecurityMode,
        /// The mode of the new suite.
        target: SecurityMode,
    },
    /// The old group is closed already.
    OldGroupInactive,
    /// The commit could not be built.
    CommitFailed(String),
    /// The commit could not be merged.
    MergeFailed(String),
    /// The key could not be exported.
    ExportSecretFailed(String),
    /// No random bytes could be had.
    RandomGenerationFailed(String),
    /// The key could not be stored.
    PskStoreFailed(String),
    /// The commit was merged, but the old group is not closed.
    OldGroupStillActive,
}

/// A `ReInitError` with its text as characters.
pub enum ReInitErrorView {
    /// See `ReInitError::TargetCiphersuiteSameAsOld`.
    TargetCiphersuiteSameAsOld {
        /// The suite.
        got: Ciphersuite,
    },
    /// See `ReInitError::DowngradeAttempt`.
    DowngradeAttempt {
        /// The mode of the old suite.
        old: SecurityMode,
        /// The mode of the new suite.
        target: SecurityMode,
    },
    /// See `ReInitError::OldGroupInactive`.
    OldGroupInactive,
    /// See `ReInitError::CommitFailed`.
    CommitFailed(Seq<char>),
    /// See `ReInitError::MergeFailed`.
    MergeFailed(Seq<char>),
    /// See `ReInitError::ExportSecretFailed`.
    ExportSecretFailed(Seq<char>),
    /// See `ReInitError::RandomGenerationFailed`.
    RandomGenerationFailed(Seq<char>),
    /// See `ReInitError::PskStoreFailed`.
    PskStoreFailed(Seq<char>),
    /// See `ReInitError::OldGroupStillActive`.
    OldGroupStillActive,
}

impl View for ReInitError {
    type V = ReInitErrorView;

    open spec fn view(&self) -> ReInitErrorView {
        match self {
            ReInitError::TargetCiphersuiteSameAsOld {
                got,
            } => ReInitErrorView::TargetCiphersuiteSameAsOld { got: *got },
            ReInitError::DowngradeAttempt {
                old: weak,
                target,
            } => ReInitErrorView::DowngradeAttempt { old: *weak, target: *target },
            ReInitError::OldGroupInactive => ReInitErrorView::OldGroupInactive,
            ReInitError::CommitFailed(s) => ReInitErrorView::CommitFailed(s@),
            ReInitError::MergeFailed(s) => ReInitErrorView::MergeFailed(s@),
            ReInitError::ExportSecretFailed(s) => ReInitErrorView::ExportSecretFailed(s@),
            ReInitError::RandomGenerationFailed(s) => ReInitErrorView::RandomGenerationFailed(s@),
            ReInitError::PskStoreFailed(s) => ReInitErrorView::PskStoreFailed(s@),
            ReInitError::OldGroupStillActive => ReInitErrorView::OldGroupStillActive,
        }
    }
}

/// What the new group will be.
#[derive(Debug, PartialEq, Eq)]
pub struct ReInitPlan {
    /// The identifier of the new group.
    pub new_group_id: GroupId,
    /// The protocol version of the new group.
    pub new_version: ProtocolVersion,
    /// The suite of the new group.
    pub new_ciphersuite: Ciphersuite,
    /// The extensions of the new group.
    pub new_extensions: Vec<Extension>,
}

impl View for ReInitPlan {
    type V = ReInitProposalView;

    /// The proposal that the plan amounts to.
    open spec fn view(&self) -> ReInitProposalView {
        ReInitProposalView {
            group_id: self.new_group_id@,
            version: self.new_version,
            ciphersuite: self.new_ciphersuite,
            extensions: extension_views(self.new_extensions@),
        }
    }
}

impl ReInitPlan {
    /// A plan with the default version and no extensions.
    pub fn new(new_group_id: GroupId, new_ciphersuite: Ciphersuite) -> (r: Self)
        ensures
            r@ == (ReInitProposalView {
                group_id: new_group_id@,
                version: ProtocolVersion::Mls10,
                ciphersuite: new_ciphersuite,
                extensions: Seq::empty(),
            }),
    {
        let r = ReInitPlan {
            new_group_id,
            new_version: ProtocolVersion::default(),
            new_ciphersuite,
            new_extensions: Vec::new(),
        };
        assert(r@.extensions =~= Seq::empty());
        r
    }
}

impl Clone for ReInitPlan {
    fn clone(&self) -> (r: Self)
        ensures
            r@ == self@,
    {
        ReInitPlan {
            new_group_id: self.new_group_id.clone(),
            new_version: self.new_version,
            new_ciphersuite: self.new_ciphersuite,
            new_extensions: copy_extensions(&self.new_extensions),
        }
    }
}

/// A commit that closed the old group.
#[derive(Debug, PartialEq, Eq)]
pub struct ReInitCommit {
    /// The commit, to be sent.
    pub commit: MlsMessageOut,
    /// A welcome for new members. There are none.
    pub welcome: Option<MlsMessageOut>,
}

/// What ties the new group to the old one.
#[derive(Debug, PartialEq, Eq)]
pub struct ReInitResumption {
    /// The name of the key, to be used in the new group.
    pub resumption_psk_id: PreSharedKeyId,
    /// The identifier of the old group.
    pub old_group_id: GroupId,
    /// The last epoch of the old group.
    pub old_group_epoch: u64,
    /// The suite of the old group.
    pub old_ciphersuite: Ciphersuite,
}

/// What stands in the way of a plan. The new suite has to be another one, and must
/// not be weaker.
pub open spec fn plan_refusal(group: MlsGroupView, plan: ReInitProposalView) -> Option<
    ReInitErrorView,
> {
    let old_mode = suite_mode(group.ciphersuite);
    let new_mode = suite_mode(plan.ciphersuite);
    if plan.ciphersuite == group.ciphersuite {
        Some(ReInitErrorView::TargetCiphersuiteSameAsOld { got: plan.ciphersuite })
    } else if mode_rank(new_mode) < mode_rank(old_mode) {
        Some(ReInitErrorView::DowngradeAttempt { old: old_mode, target: new_mode })
    } else {
        None
    }
}

/// Makes the proposal of a plan.
pub fn propose_reinit(old_group: &MlsGroup, plan: &ReInitPlan) -> (r: Result<
    Proposal,
    ReInitError,
>)
    ensures
        match (r, plan_refusal(old_group@, plan@)) {
            (Ok(p), None) => p@ == ProposalView::ReInit(plan@),
            (Err(e), Some(f)) => e@ == f,
            _ => false,
        },
{
    if plan.new_ciphersuite == old_group.ciphersuite() {
        return Err(ReInitError::TargetCiphersuiteSameAsOld { got: plan.new_ciphersuite });
    }
    let old_mode = SecurityMode::from_ciphersuite(old_group.ciphersuite());
    let new_mode = SecurityMode::from_ciphersuite(plan.new_ciphersuite);
    if new_mode.rank() < old_mode.rank() {
        return Err(ReInitError::DowngradeAttempt { old: old_mode, target: new_mode });
    }
    let proposal = ReInitProposal {
        group_id: plan.new_group_id.clone(),
        version: plan.new_version,
        ciphersuite: plan.new_ciphersuite,
        extensions: copy_extensions(&plan.new_extensions),
    };
    Ok(Proposal::ReInit(Box::new(proposal)))
}

/// A closing commit that waits for the stored keys to be loaded for it.
#[derive(Debug)]
pub struct ReInitLoad {
    /// The only proposal of the commit.
    pub proposal: Proposal,
}

/// A closing commit that waits to be built.
#[derive(Debug)]
pub struct ReInitBuild {
    /// The only proposal of the commit.
    pub proposal: Proposal,
}

/// A closing commit that waits to be staged on the old group.
#[derive(Debug, Clone, Copy, PartialEq, Eq, Structural)]
pub struct ReInitStage;

/// A closing commit that waits to be merged into the old group.
#[derive(Debug)]
pub struct ReInitMerge {
    /// The commit, to be sent.
    pub commit: MlsMessageOut,
}

/// Begins to close the old group. The first thing to do is to load the stored keys
/// for a commit with this proposal and no other.
pub fn commit_reinit(old_group: &MlsGroup, plan: &ReInitPlan) -> (r: Result<
    ReInitLoad,
    ReInitError,
>)
    ensures
        match r {
            Ok(next) => old_group@.active && plan_refusal(old_group@, plan@) is None
                && next.proposal@ == ProposalView::ReInit(plan@),
            Err(e) => if !old_group@.active {
                e@ == ReInitErrorView::OldGroupInactive
            } else {
                plan_refusal(old_group@, plan@) == Some(e@)
            },
        },
{
    if !old_group.is_active() {
        return Err(ReInitError::OldGroupInactive);
    }
    match propose_reinit(old_group, plan) {
        Ok(proposal) => Ok(ReInitLoad { proposal }),
        Err(e) => Err(e),
    }
}

/// A text with the name of a step before it.
fn prefixed(step: &str, text: &String) -> (r: String)
    ensures
        r@ == step@ + text@,
{
    let mut out: String = step.to_owned();
    out.append(text.as_str());
    out
}

impl ReInitLoad {
    /// Takes what became of loading the keys. The commit has to be built next.
    pub fn loaded(self, reply: Result<(), String>) -> (r: Result<ReInitBuild, ReInitError>)
        ensures
            match reply {
                Ok(_) => r matches Ok(next) && next.proposal@ == self.proposal@,
                Err(text) => r matches Err(e) && e@ == ReInitErrorView::CommitFailed(
                    "load_psks: "@ + text@,
                ),
            },
    {
        match reply {
            Ok(_) => Ok(ReInitBuild { proposal: self.proposal }),
            Err(text) => Err(ReInitError::CommitFailed(prefixed("load_psks: ", &text))),
        }
    }
}

impl ReInitBuild {
    /// Takes what became of building the commit. It has to be staged next.
    pub fn built(self, reply: Result<(), String>) -> (r: Result<ReInitStage, ReInitError>)
        ensures
            match reply {
                Ok(_) => r is Ok,
                Err(text) => r matches Err(e) && e@ == ReInitErrorView::CommitFailed(
                    "build: "@ + text@,
                ),
            },
    {
        match reply {
            Ok(_) => Ok(ReInitStage),
            Err(text) => Err(ReInitError::CommitFailed(prefixed("build: ", &text))),
        }
    }
}

impl ReInitStage {
    /// Takes the staged commit. It has to be merged next.
    pub fn staged(self, reply: Result<MlsMessageOut, String>) -> (r: Result<
        ReInitMerge,
        ReInitError,
    >)
        ensures
            match reply {
                Ok(commit) => r matches Ok(next) && next.commit@ == commit@,
                Err(text) => r matches Err(e) && e@ == ReInitErrorView::CommitFailed(
                    "stage_commit: "@ + text@,
                ),
            },
    {
        match reply {
            Ok(commit) => Ok(ReInitMerge { commit }),
            Err(text) => Err(ReInitError::CommitFailed(prefixed("stage_commit: ", &text))),
        }
    }
}

impl ReInitMerge {
    /// Takes what became of the merge, and ends the closing of the old group. It
    /// succeeds only where the old group is closed.
    pub fn merged(self, old_group: &mut MlsGroup, reply: Result<MergedCommit, String>) -> (r:
        Result<ReInitCommit, ReInitError>)
        ensures
            match reply {
                Err(text) => r matches Err(e) && e@ == ReInitErrorView::MergeFailed(text@)
                    && final(old_group)@ == old(old_group)@,
                Ok(merged) => final(old_group)@ == merged_group(old(old_group)@, merged)
                    && if merged.active {
                    r matches Err(e) && e@ == ReInitErrorView::OldGroupStillActive
                } else {
                    r matches Ok(done) && done.commit@ == self.commit@ && done.welcome is None
                },
            },
            r is Ok ==> !final(old_group)@.active,
    {
        match reply {
            Err(text) => Err(ReInitError::MergeFailed(text)),
            Ok(merged) => {
                old_group.record_merge(merged);
                if old_group.is_active() {
                    Err(ReInitError::OldGroupStillActive)
                } else {
                    Ok(ReInitCommit { commit: self.commit, welcome: None })
                }
            },
        }
    }
}

/// A move that waits for a secret of the old group to be exported.
#[derive(Debug, PartialEq, Eq)]
pub struct ReInitExport {
    /// The label for the export.
    pub label: String,
    /// The context for the export: the identifier of the old group.
    pub context: Vec<u8>,
    /// How many bytes to export.
    pub length: usize,
    /// The last epoch of the old group.
    pub epoch: u64,
    /// The suite of the old group.
    pub ciphersuite: Ciphersuite,
}

/// A move that waits for random bytes.
#[derive(Debug, PartialEq, Eq)]
pub struct ReInitNonce {
    /// How many bytes to draw.
    pub length: usize,
    /// The exported secret.
    pub psk: Vec<u8>,
    /// The identifier of the old group.
    pub old_group_id: Vec<u8>,
    /// The last epoch of the old group.
    pub epoch: u64,
    /// The suite of the old group.
    pub ciphersuite: Ciphersuite,
}

/// A move that waits for the key to be stored.
#[derive(Debug, PartialEq, Eq)]
pub struct ReInitStore {
    /// The key.
    pub psk: Vec<u8>,
    /// What will tie the new group to the old one. The key is stored under the name
    /// in it.
    pub resumption: ReInitResumption,
}

/// The name of the key that ties a new group to `group`.
pub open spec fn resumption_name(group: MlsGroupView, nonce: Seq<u8>) -> PreSharedKeyIdView {
    PreSharedKeyIdView {
        psk: PskView::Resumption {
            usage: ResumptionPskUsage::Reinit,
            psk_group_id: group.group_id,
            psk_epoch: group.epoch,
        },
        psk_nonce: nonce,
    }
}

/// `true` if `r` ties a new group to `group`.
pub open spec fn resumes(r: ReInitResumption, group: MlsGroupView, nonce: Seq<u8>) -> bool {
    r.resumption_psk_id@ == resumption_name(group, nonce) && r.old_group_id@ == group.group_id
        && r.old_group_epoch == group.epoch && r.old_ciphersuite == group.ciphersuite
}

/// Begins to tie a new group to the old one. The first thing to do is to export a
/// secret of the old group.
pub fn complete_reinit(old_group: &MlsGroup) -> (r: ReInitExport)
    ensures
        r.label@ == REINIT_PSK_LABEL@,
        r.context@ == old_group@.group_id,
        r.length == REINIT_PSK_LENGTH,
        r.epoch == old_group@.epoch,
        r.ciphersuite == old_group@.ciphersuite,
{
    ReInitExport {
        label: REINIT_PSK_LABEL.to_owned(),
        context: copy_bytes(old_group.group_id().as_slice()),
        length: REINIT_PSK_LENGTH,
        epoch: old_group.epoch(),
        ciphersuite: old_group.ciphersuite(),
    }
}

impl ReInitExport {
    /// Takes the exported secret. Random bytes have to be drawn next.
    pub fn exported(self, reply: Result<Vec<u8>, String>) -> (r: Result<ReInitNonce, ReInitError>)
        ensures
            match reply {
                Ok(secret) => r matches Ok(next) && next.length == REINIT_PSK_NONCE_LENGTH
                    && next.psk@ == secret@ && next.old_group_id@ == self.context@ && next.epoch
                    == self.epoch && next.ciphersuite == self.ciphersuite,
                Err(text) => r matches Err(e) && e@ == ReInitErrorView::ExportSecretFailed(text@),
            },
    {
        match reply {
            Ok(psk) => Ok(
                ReInitNonce {
                    length: REINIT_PSK_NONCE_LENGTH,
                    psk,
                    old_group_id: self.context,
                    epoch: self.epoch,
                    ciphersuite: self.ciphersuite,
                },
            ),
            Err(text) => Err(ReInitError::ExportSecretFailed(text)),
        }
    }
}

impl ReInitNonce {
    /// Takes the random bytes. The key has to be stored next, under a name that
    /// tells the old group, its epoch and the random bytes.
    pub fn drawn(self, reply: Result<Vec<u8>, String>) -> (r: Result<ReInitStore, ReInitError>)
        ensures
            match reply {
                Ok(nonce) => r matches Ok(next) && next.psk@ == self.psk@ && forall|
                    group: MlsGroupView,
                |
                    group.group_id == self.old_group_id@ && group.epoch == self.epoch
                        && group.ciphersuite == self.ciphersuite ==> #[trigger] resumes(
                        next.resumption,
                        group,
                        nonce@,
                    ),
                Err(text) => r matches Err(e) && e@ == ReInitErrorView::RandomGenerationFailed(
                    "psk_nonce: "@ + text@,
                ),
            },
    {
        let nonce = match reply {
            Ok(nonce) => nonce,
            Err(text) => {
                return Err(ReInitError::RandomGenerationFailed(prefixed("psk_nonce: ", &text)));
            },
        };
        let resumption_psk_id = PreSharedKeyId::resumption(
            ResumptionPskUsage::Reinit,
            GroupId::from_slice(self.old_group_id.as_slice()),
            self.epoch,
            nonce,
        );
        Ok(
            ReInitStore {
                psk: self.psk,
                resumption: ReInitResumption {
                    resumption_psk_id,
                    old_group_id: GroupId::from_vec(self.old_group_id),
                    old_group_epoch: self.epoch,
                    old_ciphersuite: self.ciphersuite,
                },
            },
        )
    }
}

impl ReInitStore {
    /// Takes what became of storing the key, and ends the move.
    pub fn stored(self, reply: Result<(), String>) -> (r: Result<ReInitResumption, ReInitError>)
        ensures
            match reply {
                Ok(_) => r == Ok::<ReInitResumption, ReInitError>(self.resumption),
                Err(text) => r matches Err(e) && e@ == ReInitErrorView::PskStoreFailed(text@),
            },
    {
        match reply {
            Ok(_) => Ok(self.resumption),
            Err(text) => Err(ReInitError::PskStoreFailed(text)),
        }
    }
}

/// A plan that is accepted changes the suite, and never to a weaker mode.
pub proof fn accepted_plans_never_weaken(group: MlsGroupView, plan: ReInitProposalView)
    ensures
        plan_refusal(group, plan) is None <==> plan.ciphersuite != group.ciphersuite && mode_rank(
            suite_mode(plan.ciphersuite),
        ) >= mode_rank(suite_mode(group.ciphersuite)),
{
}

/// Keys of different old groups, of different epochs or with different random bytes
/// have different names.
pub proof fn resumption_names_are_distinct(
    a: MlsGroupView,
    b: MlsGroupView,
    n: Seq<u8>,
    m: Seq<u8>,
)
    requires
        resumption_name(a, n) == resumption_name(b, m),
    ensures
        a.group_id == b.group_id,
        a.epoch == b.epoch,
        n == m,
{
}

/// The text of an error.
pub open spec fn reinit_error_text(e: ReInitErrorView) -> Seq<char> {
    match e {
        ReInitErrorView::TargetCiphersuiteSameAsOld { got } => "ReInit target ciphersuite "@ + ciphersuite_name(got) + " matches the old group's ciphersuite — nothing to upgrade"@,
        ReInitErrorView::DowngradeAttempt { old: weak, target } => "ReInit would downgrade the conversation security mode from "@ + mode_name(weak) + " to "@ + mode_name(target),
        ReInitErrorView::OldGroupInactive => "old group is not active (already inactive / evicted)"@,
        ReInitErrorView::CommitFailed(reason) => "ReInit commit on old group failed: "@ + reason,
        ReInitErrorView::MergeFailed(reason) => "ReInit merge on old group failed: "@ + reason,
        ReInitErrorView::ExportSecretFailed(reason) => "export of ReInit resumption PSK failed: "@ + reason,
        ReInitErrorView::RandomGenerationFailed(reason) => "random generation failed: "@ + reason,
        ReInitErrorView::PskStoreFailed(reason) => "resumption PSK store failed: "@ + reason,
        ReInitErrorView::OldGroupStillActive => "ReInit commit did not transition old group to Inactive (state machine drift)"@,
    }
}

impl ReInitError {
    /// The text of an error.
    pub fn message(&self) -> (r: String)
        ensures
            r@ == reinit_error_text(self@),
    {
        match self {
            ReInitError::TargetCiphersuiteSameAsOld { got } => {
                let mut text: String = "ReInit target ciphersuite ".to_owned();
                text.append(got.name());
                text.append(" matches the old group's ciphersuite — nothing to upgrade");
                text
            },
            ReInitError::DowngradeAttempt { old: weak, target } => {
                let mut text: String = "ReInit would downgrade the conversation security mode from ".to_owned();
                text.append(weak.name());
                text.append(" to ");
                text.append(target.name());
                text
            },
            ReInitError::OldGroupInactive => "old group is not active (already inactive / evicted)".to_owned(),
            ReInitError::CommitFailed(reason) => {
                let mut text: String = "ReInit commit on old group failed: ".to_owned();
                text.append(reason.as_str());
                text
            },
            ReInitError::MergeFailed(reason) => {
                let mut text: String = "ReInit merge on old group failed: ".to_owned();
                text.append(reason.as_str());
                text
            },
            ReInitError::ExportSecretFailed(reason) => {
                let mut text: String = "export of ReInit resumption PSK failed: ".to_owned();
                text.append(reason.as_str());
                text
            },
            ReInitError::RandomGenerationFailed(reason) => {
                let mut text: String = "random generation failed: ".to_owned();
                text.append(reason.as_str());
                text
            },
            ReInitError::PskStoreFailed(reason) => {
                let mut text: String = "resumption PSK store failed: ".to_owned();
                text.append(reason.as_str());
                text
            },
            ReInitError::OldGroupStillActive => "ReInit commit did not transition old group to Inactive (state machine drift)".to_owned(),
        }
    }
}

/// A refused plan names its fault: the same suite before a weaker one, and for a weaker
/// one both modes.
pub proof fn refused_plan_names_its_fault(group: MlsGroupView, plan: ReInitProposalView)
    ensures
        plan_refusal(group, plan) == Some(
            ReInitErrorView::TargetCiphersuiteSameAsOld { got: plan.ciphersuite },
        ) <==> plan.ciphersuite == group.ciphersuite,
        plan_refusal(group, plan) == Some(
            ReInitErrorView::DowngradeAttempt {
                old: suite_mode(group.ciphersuite),
                target: suite_mode(plan.ciphersuite),
            },
        ) <==> mode_rank(suite_mode(plan.ciphersuite)) < mode_rank(suite_mode(group.ciphersuite)),
        plan_refusal(group, plan) is Some ==> plan.ciphersuite == group.ciphersuite || mode_rank(
            suite_mode(plan.ciphersuite),
        ) < mode_rank(suite_mode(group.ciphersuite)),
{
}

/// Nothing leads back: if a plan leads to a stronger mode, no accepted plan leads from
/// there to the old one.
pub proof fn moves_to_stronger_modes_are_final(
    a: MlsGroupView,
    b: MlsGroupView,
    there: ReInitProposalView,
    back: ReInitProposalView,
)
    requires
        plan_refusal(a, there) is None,
        b.ciphersuite == there.ciphersuite,
        back.ciphersuite == a.ciphersuite,
        suite_mode(a.ciphersuite) != suite_mode(there.ciphersuite),
    ensures
        plan_refusal(b, back) is Some,
{
    modes_are_strictly_ordered(suite_mode(a.ciphersuite), suite_mode(there.ciphersuite));
}

/// The name of the key tells the old group, its last epoch and the random bytes, and
/// that it is for a move to a new group.
pub proof fn resumption_name_tells_the_old_group(group: MlsGroupView, nonce: Seq<u8>)
    ensures
        resumption_name(group, nonce).psk_nonce == nonce,
        resumption_name(group, nonce).psk matches PskView::Resumption {
            usage,
            psk_group_id,
            psk_epoch,
        } && usage == ResumptionPskUsage::Reinit && psk_group_id == group.group_id && psk_epoch
            == group.epoch,
{
}

/// What ties a new group to an old one names that group, its last epoch and its suite,
/// and no other group's.
pub proof fn resumption_names_one_group(
    r: ReInitResumption,
    a: MlsGroupView,
    b: MlsGroupView,
    n: Seq<u8>,
    m: Seq<u8>,
)
    requires
        resumes(r, a, n),
    ensures
        r.old_group_id@ == a.group_id,
        r.old_group_epoch == a.epoch,
        r.old_ciphersuite == a.ciphersuite,
        r.resumption_psk_id@.psk_nonce == n,
        resumes(r, b, m) ==> a.group_id == b.group_id && a.epoch == b.epoch && a.ciphersuite
            == b.ciphersuite && n == m,
{
}

} // verus!
