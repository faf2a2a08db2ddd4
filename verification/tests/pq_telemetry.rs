//! Events, and who collects them.
use kchat_mls::ciphersuite::security_mode::SecurityMode;
use kchat_mls::group::pq_telemetry::{
    InMemoryTelemetryEmitter, NoOpTelemetryEmitter, PqTelemetryEmitter, PqTelemetryEvent,
};
use kchat_mls::types::Ciphersuite;

fn classical_cs() -> Ciphersuite {
    Ciphersuite::MLS_128_DHKEMX25519_AES128GCM_SHA256_Ed25519
}

fn xwing_cs() -> Ciphersuite {
    Ciphersuite::MLS_256_XWING_CHACHA20POLY1305_SHA256_Ed25519
}

#[test]
fn noop_emitter_silently_accepts_every_event() {
    let mut emitter = NoOpTelemetryEmitter;
    emitter.emit(PqTelemetryEvent::KeyPackageExhaustion {
        user_id: b"alice".to_vec(),
        device_id: b"phone".to_vec(),
        ciphersuite: xwing_cs(),
    });
    emitter.emit(PqTelemetryEvent::PqProviderError {
        operation: "hpke_seal".into(),
        error: "unsupported".into(),
    });
}

#[test]
fn in_memory_emitter_collects_events_in_order() {
    let mut emitter = InMemoryTelemetryEmitter::new();
    assert!(emitter.is_empty());

    emitter.emit(PqTelemetryEvent::ApqBootstrapCompleted {
        conversation_id: b"conv-1".to_vec(),
        mode: SecurityMode::PqConfidentiality,
        member_count: 3,
    });
    emitter.emit(PqTelemetryEvent::ReInitCompleted {
        conversation_id: b"conv-2".to_vec(),
        old_ciphersuite: classical_cs(),
        new_ciphersuite: xwing_cs(),
    });
    emitter.emit(PqTelemetryEvent::ResyncTriggered {
        conversation_id: b"conv-3".to_vec(),
        status: "force_resync".into(),
    });

    assert_eq!(emitter.len(), 3);

    let events = emitter.events();
    assert!(matches!(
        events[0],
        PqTelemetryEvent::ApqBootstrapCompleted {
            mode: SecurityMode::PqConfidentiality,
            member_count: 3,
            ..
        }
    ));
    assert!(matches!(
        events[1],
        PqTelemetryEvent::ReInitCompleted { .. }
    ));
    assert!(matches!(
        events[2],
        PqTelemetryEvent::ResyncTriggered { .. }
    ));
}

#[test]
fn drain_empties_the_emitter() {
    let mut emitter = InMemoryTelemetryEmitter::new();
    emitter.emit(PqTelemetryEvent::DowngradeAttempt {
        conversation_id: b"conv".to_vec(),
        from: SecurityMode::PqAuthenticity,
        to: SecurityMode::PqConfidentiality,
    });
    let drained = emitter.drain();
    assert_eq!(drained.len(), 1);
    assert!(emitter.is_empty());
}

#[test]
fn emitter_trait_object_is_object_safe() {
    let mut emitter: Box<dyn PqTelemetryEmitter> = Box::new(InMemoryTelemetryEmitter::new());
    emitter.emit(PqTelemetryEvent::UnsupportedCiphersuite {
        ciphersuite: xwing_cs(),
        provider_id: "rustcrypto".into(),
    });
}

#[test]
fn missed_commit_pair_carries_both_epochs() {
    let mut emitter = InMemoryTelemetryEmitter::new();
    emitter.emit(PqTelemetryEvent::MissedCommitPair {
        conversation_id: b"conv".to_vec(),
        missed_side: "T".into(),
        t_epoch: 5,
        pq_epoch: 6,
    });
    let events = emitter.events();
    match &events[0] {
        PqTelemetryEvent::MissedCommitPair {
            missed_side,
            t_epoch,
            pq_epoch,
            ..
        } => {
            assert_eq!(missed_side, "T");
            assert_eq!(*t_epoch, 5);
            assert_eq!(*pq_epoch, 6);
        }
        other => panic!("unexpected event: {other:?}"),
    }
}
