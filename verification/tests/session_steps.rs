//! Recoveries and moves, step by step.
use kchat_mls::ciphersuite::security_mode::SecurityMode;
use kchat_mls::extensions::apq_info::ApqInfo;
use kchat_mls::group::apq_commit::{
    prepare_full_commit, prepare_partial_commit, ApqCommitError,
};
use kchat_mls::group::apq_resync::{
    detect_desync, force_resync, resync_from_pq, resync_from_t, ApqResyncError, DesyncStatus,
    ResyncResult,
};
use kchat_mls::group::kchat_conversation::{KChatConversationError, KChatMlsConversation};
use kchat_mls::group::pq_policy::{CommitTrigger, PqPolicy};
use kchat_mls::group::pq_telemetry::PqTelemetryEvent;
use kchat_mls::group::reinit_upgrade::{
    commit_reinit, complete_reinit, propose_reinit, ReInitError, ReInitPlan,
};
use kchat_mls::mls::{
    MergedCommit, MlsGroup, MlsMessageOut, PreSharedKeyId, ProcessedContent, Proposal, Psk,
    ResumptionPskUsage,
};
use kchat_mls::types::{Ciphersuite, GroupId};

fn classical() -> Ciphersuite {
    Ciphersuite::MLS_128_DHKEMX25519_AES128GCM_SHA256_Ed25519
}

fn xwing() -> Ciphersuite {
    Ciphersuite::MLS_256_XWING_CHACHA20POLY1305_SHA256_Ed25519
}

fn group(id: u8, cs: Ciphersuite, epoch: u64) -> MlsGroup {
    MlsGroup::new(GroupId::from_slice(&[id; 4]), cs, epoch, true)
}

fn info() -> ApqInfo {
    ApqInfo::new(
        GroupId::from_slice(&[1; 4]),
        GroupId::from_slice(&[2; 4]),
        5,
        5,
        classical(),
        xwing(),
        SecurityMode::PqConfidentiality,
    )
}

fn paired(t_epoch: u64, pq_epoch: u64, policy: PqPolicy) -> KChatMlsConversation {
    KChatMlsConversation::new_apq(
        b"conv".to_vec(),
        SecurityMode::PqConfidentiality,
        group(1, classical(), t_epoch),
        group(2, xwing(), pq_epoch),
        info(),
        policy,
    )
    .unwrap()
}

fn single() -> KChatMlsConversation {
    KChatMlsConversation::new_classical(b"conv".to_vec(), group(1, classical(), 3)).unwrap()
}

fn merged(epoch: u64) -> Result<MergedCommit, String> {
    Ok(MergedCommit {
        epoch,
        active: true,
    })
}

fn failed<T>() -> Result<T, String> {
    Err("boom".to_string())
}

fn psk_id() -> PreSharedKeyId {
    PreSharedKeyId::external(b"name".to_vec(), vec![0; 4])
}

#[test]
fn conversations_start_as_asked() {
    let c = single();
    assert_eq!(c.conversation_id(), b"conv");
    assert_eq!(c.mode(), SecurityMode::Classical);
    assert_eq!(c.pq_policy(), PqPolicy::Classical);
    assert!(c.is_classical() && !c.is_pq() && !c.is_apq());
    assert!(c.pq_group().is_none() && c.apq_info().is_none());
    let c = KChatMlsConversation::new_direct_pq(
        b"d".to_vec(),
        SecurityMode::PqAuthenticity,
        group(2, xwing(), 0),
        PqPolicy::PqRequired,
    )
    .unwrap();
    assert!(c.is_pq() && !c.is_apq() && !c.is_classical());
    let mut c = paired(5, 5, PqPolicy::PqConfidentiality);
    assert!(c.is_pq() && c.is_apq());
    assert_eq!(c.apq_info(), Some(&info()));
    assert_eq!(c.last_full_commit_epoch(), 0);
    c.set_pending_full_commit(true);
    c.record_full_commit(8);
    assert_eq!(c.last_full_commit_epoch(), 8);
    assert!(!c.pending_full_commit());
}

#[test]
fn conversations_refuse_what_does_not_fit() {
    let groups = || (group(1, classical(), 0), group(2, xwing(), 0));
    assert_eq!(
        KChatMlsConversation::new_direct_pq(
            vec![],
            SecurityMode::Classical,
            groups().1,
            PqPolicy::PqRequired
        )
        .err(),
        Some(KChatConversationError::DirectPqWithClassicalMode {
            got: SecurityMode::Classical
        })
    );
    let apq = |mode: SecurityMode, info: ApqInfo| {
        let (t, pq) = groups();
        KChatMlsConversation::new_apq(vec![], mode, t, pq, info, PqPolicy::PqRequired).err()
    };
    assert_eq!(
        apq(SecurityMode::Classical, info()),
        Some(KChatConversationError::ApqWithClassicalMode {
            got: SecurityMode::Classical
        })
    );
    assert_eq!(
        apq(SecurityMode::PqAuthenticity, info()),
        Some(KChatConversationError::ApqInfoModeMismatch {
            expected: SecurityMode::PqAuthenticity,
            got: SecurityMode::PqConfidentiality
        })
    );
    let mut bad = info();
    bad.t_epoch = 9;
    assert!(matches!(
        apq(SecurityMode::PqConfidentiality, bad),
        Some(KChatConversationError::InvalidApqInfo(_))
    ));
}

#[test]
fn commits_are_checked_in_order() {
    let full = |c: &mut KChatMlsConversation, trigger: CommitTrigger| {
        prepare_full_commit(c, trigger, vec![], &(), &()).err()
    };
    let partial = |c: &mut KChatMlsConversation, trigger: CommitTrigger| {
        prepare_partial_commit(c, trigger, vec![], &(), &()).err()
    };
    let add = CommitTrigger::AddMember;
    let refresh = CommitTrigger::PeriodicRefresh;
    let message = CommitTrigger::NormalMessage;
    assert_eq!(
        full(&mut single(), add),
        Some(ApqCommitError::NotApqConversation)
    );
    let mut c = paired(5, 5, PqPolicy::PqConfidentiality);
    assert_eq!(full(&mut c, add), Some(ApqCommitError::NotImplemented));
    assert_eq!(
        full(&mut c, refresh),
        Some(ApqCommitError::TriggerOnlyRequiresPartial { trigger: refresh })
    );
    assert_eq!(
        full(&mut c, message),
        Some(ApqCommitError::TriggerIsNoCommit { trigger: message })
    );
    assert_eq!(partial(&mut c, refresh), Some(ApqCommitError::NotImplemented));
    assert_eq!(
        partial(&mut c, add),
        Some(ApqCommitError::TriggerRequiresFull { trigger: add })
    );
    assert_eq!(
        partial(&mut c, message),
        Some(ApqCommitError::TriggerIsNoCommit { trigger: message })
    );
    assert!(!c.pending_full_commit());
    c.set_pending_full_commit(true);
    assert_eq!(full(&mut c, add), Some(ApqCommitError::FullCommitInFlight));
    assert_eq!(
        partial(&mut c, refresh),
        Some(ApqCommitError::FullCommitInFlight)
    );
}

#[test]
fn distances_are_reported() {
    let status = |t: u64, pq: u64| {
        detect_desync(&paired(t, pq, PqPolicy::PqConfidentiality)).status
    };
    assert_eq!(status(4, 4), DesyncStatus::InSync);
    assert_eq!(status(4, 5), DesyncStatus::PqAhead { delta: 1 });
    assert_eq!(status(5, 4), DesyncStatus::TAhead { delta: 1 });
    assert_eq!(status(0, u64::MAX), DesyncStatus::DriftExceeded { delta: u64::MAX });
    let report = detect_desync(&single());
    assert_eq!(report.status, DesyncStatus::InSync);
    assert_eq!(report.t_epoch, Some(3));
    assert_eq!(report.pq_epoch, None);
}

#[test]
fn both_halves_bring_the_sessions_together() {
    let mut c = paired(5, 5, PqPolicy::PqConfidentiality);
    let (step, event) = resync_from_pq(&c, psk_id()).unwrap();
    assert_eq!(
        event,
        PqTelemetryEvent::ResyncTriggered {
            conversation_id: b"conv".to_vec(),
            status: "resync_from_pq".to_string(),
        }
    );
    let step = step
        .processed(Ok(ProcessedContent::StagedCommitMessage))
        .unwrap();
    let step = step.merged(&mut c, merged(6)).unwrap();
    assert_eq!(step.label, "kchat-apq-psk");
    assert_eq!(step.context, b"conv".to_vec());
    assert_eq!(step.length, 32);
    let step = step.exported(Ok(vec![7; 32])).unwrap();
    assert_eq!(step.psk, vec![7; 32]);
    assert_eq!(step.psk_id, psk_id());
    let (result, id) = step.stored(&mut c, Ok(())).unwrap();
    assert_eq!(id, psk_id());
    assert_eq!(
        result,
        ResyncResult {
            recovered: false,
            t_epoch: 5,
            pq_epoch: 6
        }
    );
    assert!(c.pending_full_commit());
    let (step, _) = resync_from_t(&c).unwrap();
    let step = step
        .processed(Ok(ProcessedContent::StagedCommitMessage))
        .unwrap();
    let result = step.merged(&mut c, merged(6)).unwrap();
    assert!(result.recovered);
    assert!(!c.pending_full_commit());
    assert_eq!(c.last_full_commit_epoch(), 6);
}

#[test]
fn recoveries_stop_at_each_failure() {
    let text = "boom".to_string();
    assert_eq!(
        resync_from_pq(&single(), psk_id()).err(),
        Some(ApqResyncError::NotApqConversation)
    );
    assert_eq!(
        resync_from_t(&single()).err(),
        Some(ApqResyncError::NotApqConversation)
    );
    let mut c = paired(5, 5, PqPolicy::PqConfidentiality);
    let start = |c: &KChatMlsConversation| resync_from_pq(c, psk_id()).unwrap().0;
    let commit = Ok(ProcessedContent::StagedCommitMessage);
    assert_eq!(
        start(&c).processed(failed()).err(),
        Some(ApqResyncError::PqProcessingFailed(text.clone()))
    );
    assert_eq!(
        start(&c)
            .processed(Ok(ProcessedContent::ApplicationMessage))
            .err(),
        Some(ApqResyncError::NotACommit)
    );
    let step = start(&c).processed(commit.clone()).unwrap();
    assert_eq!(
        step.merged(&mut c, failed()).err(),
        Some(ApqResyncError::MergeFailed(text.clone()))
    );
    let step = start(&c).processed(commit.clone()).unwrap();
    let step = step.merged(&mut c, merged(6)).unwrap();
    assert_eq!(
        step.exported(failed()).err(),
        Some(ApqResyncError::ExportSecretFailed(text.clone()))
    );
    let step = start(&c).processed(commit).unwrap();
    let step = step.merged(&mut c, merged(7)).unwrap();
    let step = step.exported(Ok(vec![])).unwrap();
    assert_eq!(
        step.stored(&mut c, failed()).err(),
        Some(ApqResyncError::PskStoreFailed(text.clone()))
    );
    assert!(!c.pending_full_commit());
    let step = resync_from_t(&c).unwrap().0;
    assert_eq!(
        step.processed(failed()).err(),
        Some(ApqResyncError::TProcessingFailed(text))
    );
}

#[test]
fn forced_resyncs_clear_what_was_under_way() {
    let (event, outcome) = force_resync(&mut single(), &(), &());
    assert!(event.is_none());
    assert_eq!(outcome.err(), Some(ApqResyncError::NotApqConversation));
    let mut c = paired(1, 9, PqPolicy::PqRequired);
    c.set_pending_full_commit(true);
    let (event, outcome) = force_resync(&mut c, &(), &());
    assert_eq!(
        event,
        Some(PqTelemetryEvent::ResyncTriggered {
            conversation_id: b"conv".to_vec(),
            status: "force_resync".to_string(),
        })
    );
    assert_eq!(
        outcome.err(),
        Some(ApqResyncError::ForcedFullCommitFailed(
            ApqCommitError::NotImplemented
        ))
    );
    assert!(!c.pending_full_commit());
}

#[test]
fn plans_become_proposals_unless_weaker() {
    let plan = ReInitPlan::new(GroupId::from_slice(b"new"), xwing());
    match propose_reinit(&group(1, classical(), 2), &plan) {
        Ok(Proposal::ReInit(proposal)) => {
            assert_eq!(proposal.group_id, GroupId::from_slice(b"new"));
            assert_eq!(proposal.ciphersuite, xwing());
        }
        other => panic!("unexpected {other:?}"),
    }
    assert_eq!(
        propose_reinit(&group(1, xwing(), 2), &plan).err(),
        Some(ReInitError::TargetCiphersuiteSameAsOld { got: xwing() })
    );
    let weaker = ReInitPlan::new(GroupId::from_slice(b"new"), classical());
    assert_eq!(
        propose_reinit(&group(1, xwing(), 2), &weaker).err(),
        Some(ReInitError::DowngradeAttempt {
            old: SecurityMode::PqConfidentiality,
            target: SecurityMode::Classical
        })
    );
}

#[test]
fn old_groups_are_closed() {
    let plan = ReInitPlan::new(GroupId::from_slice(b"new"), xwing());
    let mut old = group(1, classical(), 2);
    let step = commit_reinit(&old, &plan).unwrap();
    let step = step.loaded(Ok(())).unwrap();
    let step = step.built(Ok(())).unwrap();
    let commit = || MlsMessageOut { bytes: vec![1, 2] };
    let step = step.staged(Ok(commit())).unwrap();
    let closed = MergedCommit {
        epoch: 3,
        active: false,
    };
    let done = step.merged(&mut old, Ok(closed)).unwrap();
    assert_eq!(done.commit, commit());
    assert!(done.welcome.is_none());
    assert!(!old.is_active());
    assert_eq!(old.epoch(), 3);
    assert_eq!(
        commit_reinit(&old, &plan).err(),
        Some(ReInitError::OldGroupInactive)
    );
}

#[test]
fn closing_stops_at_each_failure() {
    let plan = ReInitPlan::new(GroupId::from_slice(b"new"), xwing());
    let mut old = group(1, classical(), 2);
    let text = |s: &str| s.to_string();
    let load = |old: &MlsGroup| commit_reinit(old, &plan).unwrap();
    assert_eq!(
        load(&old).loaded(failed()).err(),
        Some(ReInitError::CommitFailed(text("load_psks: boom")))
    );
    let build = load(&old).loaded(Ok(())).unwrap();
    assert_eq!(
        build.built(failed()).err(),
        Some(ReInitError::CommitFailed(text("build: boom")))
    );
    let stage = load(&old).loaded(Ok(())).unwrap().built(Ok(())).unwrap();
    assert_eq!(
        stage.staged(failed()).err(),
        Some(ReInitError::CommitFailed(text("stage_commit: boom")))
    );
    let commit = || MlsMessageOut { bytes: vec![] };
    let merge = stage.staged(Ok(commit())).unwrap();
    assert_eq!(
        merge
            .merged(&mut old, failed())
            .err(),
        Some(ReInitError::MergeFailed(text("boom")))
    );
    let merge = stage.staged(Ok(commit())).unwrap();
    assert_eq!(
        merge.merged(&mut old, merged(3)).err(),
        Some(ReInitError::OldGroupStillActive)
    );
}

#[test]
fn new_groups_are_tied_to_old_ones() {
    let old = MlsGroup::new(GroupId::from_slice(b"old"), classical(), 7, false);
    let step = complete_reinit(&old);
    assert_eq!(step.label, "kchat-reinit-psk");
    assert_eq!(step.context, b"old".to_vec());
    assert_eq!(step.length, 32);
    let step = step.exported(Ok(vec![1; 32])).unwrap();
    assert_eq!(step.length, 32);
    let step = step.drawn(Ok(vec![2; 32])).unwrap();
    assert_eq!(step.psk, vec![1; 32]);
    let resumption = step.stored(Ok(())).unwrap();
    assert_eq!(resumption.old_group_id, GroupId::from_slice(b"old"));
    assert_eq!(resumption.old_group_epoch, 7);
    assert_eq!(resumption.old_ciphersuite, classical());
    assert_eq!(
        resumption.resumption_psk_id,
        PreSharedKeyId::resumption(
            ResumptionPskUsage::Reinit,
            GroupId::from_slice(b"old"),
            7,
            vec![2; 32]
        )
    );
    assert!(matches!(
        resumption.resumption_psk_id.psk,
        Psk::Resumption { .. }
    ));
}

#[test]
fn ties_stop_at_each_failure() {
    let old = MlsGroup::new(GroupId::from_slice(b"old"), classical(), 7, false);
    assert_eq!(
        complete_reinit(&old)
            .exported(failed())
            .err(),
        Some(ReInitError::ExportSecretFailed("boom".to_string()))
    );
    let nonce = complete_reinit(&old).exported(Ok(vec![])).unwrap();
    assert_eq!(
        nonce.drawn(failed()).err(),
        Some(ReInitError::RandomGenerationFailed(
            "psk_nonce: boom".to_string()
        ))
    );
    let nonce = complete_reinit(&old).exported(Ok(vec![])).unwrap();
    let store = nonce.drawn(Ok(vec![])).unwrap();
    assert_eq!(
        store.stored(failed()).err(),
        Some(ReInitError::PskStoreFailed("boom".to_string()))
    );
}
