//! What the services accept, refuse and keep apart.
use kchat_mls::ciphersuite::codepoint_migration::{
    CiphersuiteRow, CodepointMigration, KemRow, SigRow,
};
use kchat_mls::ciphersuite::security_mode::SecurityMode;
use kchat_mls::credentials::capability_protocol::{
    process_fetch, CapabilityFetchKey, CapabilityFetchRequest,
};
use kchat_mls::credentials::capability_registry::CapabilityRegistry;
use kchat_mls::credentials::device_capability::DeviceCapability;
use kchat_mls::extensions::apq_info::ApqInfo;
use kchat_mls::group::conversation_metadata::{
    ConversationMetadata, ConversationMetadataService, MetadataError,
};
use kchat_mls::group::migration_state::{
    ConversationLifecycle, MigrationEvent, MigrationStateMachine,
};
use kchat_mls::group::no_downgrade::{ConversationSecurityState, DowngradeError};
use kchat_mls::key_packages::key_package_service::{
    KeyPackageEntry, KeyPackageService, ServiceError,
};
use kchat_mls::key_packages::multi_ciphersuite::{
    unique_ciphersuites, MultiCiphersuiteError, MultiCiphersuiteKeyPackages,
};
use kchat_mls::key_packages::rate_limiter::KeyPackageFetchRateLimiter;
use kchat_mls::messages::delivery_service::{
    ApqDeliveryEnvelope, DeliveryError, DeliveryService, SessionSide,
};
use kchat_mls::mls::{KeyPackage, KeyPackageBundle, MlsMessageOut};
use kchat_mls::tls::VLBytes;
use kchat_mls::types::{Ciphersuite, GroupId, HpkeKemType, SignatureScheme};

const SUITES: [Ciphersuite; 14] = [
    Ciphersuite::MLS_128_DHKEMX25519_AES128GCM_SHA256_Ed25519,
    Ciphersuite::MLS_128_DHKEMP256_AES128GCM_SHA256_P256,
    Ciphersuite::MLS_128_DHKEMX25519_CHACHA20POLY1305_SHA256_Ed25519,
    Ciphersuite::MLS_256_DHKEMX448_AES256GCM_SHA512_Ed448,
    Ciphersuite::MLS_256_DHKEMP521_AES256GCM_SHA512_P521,
    Ciphersuite::MLS_256_DHKEMX448_CHACHA20POLY1305_SHA512_Ed448,
    Ciphersuite::MLS_256_DHKEMP384_AES256GCM_SHA384_P384,
    Ciphersuite::MLS_256_XWING_CHACHA20POLY1305_SHA256_Ed25519,
    Ciphersuite::MLS_256_MLKEM768_X25519_AES256GCM_SHA384_Ed25519,
    Ciphersuite::MLS_256_MLKEM768_X25519_CHACHA20POLY1305_SHA256_Ed25519,
    Ciphersuite::MLS_256_MLKEM1024_AES256GCM_SHA512_Ed448,
    Ciphersuite::MLS_256_MLKEM768_AES256GCM_SHA384_Ed25519,
    Ciphersuite::MLS_256_MLKEM768_X25519_AES256GCM_SHA384_MLDSA65,
    Ciphersuite::MLS_256_MLKEM768_AES256GCM_SHA384_MLDSA65,
];

fn entry(cs: Ciphersuite, tag: u8, expiry: u64, last_resort: bool) -> KeyPackageEntry {
    KeyPackageEntry::new(KeyPackage::new(cs, vec![tag]), 1, expiry, last_resort)
}

#[test]
fn suites_have_their_codepoints() {
    let codepoints: Vec<u16> = SUITES.iter().map(|cs| cs.codepoint()).collect();
    assert_eq!(
        codepoints,
        vec![1, 2, 3, 4, 5, 6, 7, 0x4d, 0xfe01, 0xfe02, 0xfe03, 0xfe04, 0xfe05, 0xfe06]
    );
    for cs in SUITES {
        assert_eq!(Ciphersuite::from_codepoint(cs.codepoint()), Some(cs));
        assert_eq!(cs.name(), format!("{cs:?}"));
        assert_eq!(cs.is_draft_codepoint(), cs.codepoint() >= 0x4d);
    }
    assert_eq!(Ciphersuite::from_codepoint(0), None);
}

#[test]
fn devices_are_capped() {
    let mut service = KeyPackageService::new();
    for cs in SUITES {
        service
            .publish(b"u".to_vec(), b"d".to_vec(), entry(cs, 0, 9, false))
            .unwrap();
    }
    for cs in [SUITES[0], SUITES[1]] {
        service
            .publish(b"u".to_vec(), b"d".to_vec(), entry(cs, 0, 9, true))
            .unwrap();
    }
    assert_eq!(service.count_for_device(b"u", b"d"), 16);
    assert_eq!(
        service.publish(b"u".to_vec(), b"d".to_vec(), entry(SUITES[2], 0, 9, true)),
        Err(ServiceError::PerDeviceCapExceeded {
            user_id: b"u".to_vec(),
            device_id: b"d".to_vec(),
            cap: 16
        })
    );
    service
        .publish(b"u".to_vec(), b"e".to_vec(), entry(SUITES[2], 0, 9, true))
        .unwrap();
    assert_eq!(service.total_len(), 17);
}

#[test]
fn taken_places_stay_taken() {
    let mut service = KeyPackageService::new();
    service
        .publish(b"u".to_vec(), b"d".to_vec(), entry(SUITES[0], 1, 9, false))
        .unwrap();
    assert_eq!(
        service.publish(b"u".to_vec(), b"d".to_vec(), entry(SUITES[0], 2, 9, false)),
        Err(ServiceError::DuplicateEntry {
            user_id: b"u".to_vec(),
            device_id: b"d".to_vec(),
            ciphersuite: SUITES[0]
        })
    );
    let fetched = service.fetch(b"u", b"d", SUITES[0]).unwrap();
    assert_eq!(fetched.key_package.as_slice(), &[1]);
    assert!(service.fetch(b"u", b"d", SUITES[0]).is_none());
}

#[test]
fn the_hour_of_expiry_still_counts() {
    let mut service = KeyPackageService::new();
    service
        .publish(b"u".to_vec(), b"d".to_vec(), entry(SUITES[0], 1, 10, false))
        .unwrap();
    assert_eq!(service.expire_before(10), 0);
    assert_eq!(service.expire_before(11), 1);
    assert!(service.is_empty());
}

#[test]
fn limits_hold_for_every_window() {
    let mut limiter = KeyPackageFetchRateLimiter::new(2, 10);
    let mut accepted = vec![];
    for now in [0u64, 1, 2, 5, 11, 12, 13, 22, 23] {
        if limiter.check_and_record(b"u", b"d", now).is_ok() {
            accepted.push(now);
        }
    }
    assert_eq!(accepted, vec![0, 1, 11, 12, 22, 23]);
    for start in 0..24u64 {
        let inside = accepted
            .iter()
            .filter(|t| start <= **t && **t <= start + 10)
            .count();
        assert!(inside <= 2);
    }
    assert!(limiter.recorded(b"u", b"other").is_none());
    limiter.reset(b"u", b"d");
    assert_eq!(limiter.tracked_devices(), 0);
}

fn build(cs: Ciphersuite) -> Result<KeyPackageBundle, String> {
    if cs == SUITES[1] {
        return Err("no P-256".to_string());
    }
    Ok(KeyPackageBundle {
        key_package: KeyPackage::new(cs, vec![]),
        private_keys: vec![],
    })
}

fn pq_capability() -> DeviceCapability {
    DeviceCapability::new(
        1,
        vec![Ciphersuite::MLS_128_DHKEMX25519_AES128GCM_SHA256_Ed25519],
        vec![Ciphersuite::MLS_256_XWING_CHACHA20POLY1305_SHA256_Ed25519],
        true,
        false,
        "libcrux".into(),
    )
}

#[test]
fn libcrux_generates_pq_key_packages_for_xwing() {
    let bundle = MultiCiphersuiteKeyPackages::generate_for_capability(&pq_capability(), build)
        .expect("generate succeeded");
    assert_eq!(bundle.len(), 2);
    assert_eq!(bundle.pq_packages().len(), 1);
    assert_eq!(bundle.classical_packages().len(), 1);
    assert!(bundle
        .key_package(Ciphersuite::MLS_256_XWING_CHACHA20POLY1305_SHA256_Ed25519)
        .is_some());
}

#[test]
fn libcrux_per_device_cap_enforced_for_mixed_classical_pq() {
    let result =
        MultiCiphersuiteKeyPackages::generate_for_capability_with_cap(&pq_capability(), build, 1);
    assert!(matches!(
        result,
        Err(MultiCiphersuiteError::TooManyCiphersuites { .. })
    ));
}

#[test]
fn a_failed_build_is_named() {
    let capability =
        DeviceCapability::new(1, SUITES[..3].to_vec(), vec![], false, false, "x".into());
    let result = MultiCiphersuiteKeyPackages::generate_for_capability(&capability, build);
    assert_eq!(
        result.err(),
        Some(MultiCiphersuiteError::KeyPackageError {
            cs: SUITES[1],
            source: "no P-256".to_string()
        })
    );
}

#[test]
fn suites_are_unique_in_order() {
    let capability = DeviceCapability::new(
        1,
        vec![SUITES[2], SUITES[0], SUITES[2]],
        vec![SUITES[7], SUITES[0]],
        false,
        false,
        "x".into(),
    );
    assert_eq!(
        unique_ciphersuites(&capability),
        vec![SUITES[2], SUITES[0], SUITES[7]]
    );
}

fn envelope(group: u8, side: SessionSide, pair: Option<u64>, tag: u8) -> ApqDeliveryEnvelope {
    let id = GroupId::from_slice(&[group]);
    let message = MlsMessageOut { bytes: vec![tag] };
    match pair {
        Some(pair) => ApqDeliveryEnvelope::new_full_commit_half(id, side, pair, message),
        None => ApqDeliveryEnvelope::new_simple(id, side, message),
    }
}

#[test]
fn queues_keep_their_order_and_halves_follow() {
    let mut service = DeliveryService::new();
    let group = GroupId::from_slice(&[1]);
    service.enqueue(envelope(1, SessionSide::T, None, 1)).unwrap();
    service.enqueue(envelope(1, SessionSide::Pq, Some(9), 2)).unwrap();
    service.enqueue(envelope(2, SessionSide::T, None, 3)).unwrap();
    assert_eq!(
        service.enqueue(envelope(1, SessionSide::T, Some(8), 4)),
        Err(DeliveryError::PqHalfMissing { pair_id: 8 })
    );
    service.enqueue(envelope(1, SessionSide::T, Some(9), 5)).unwrap();
    assert_eq!(
        service.enqueue(envelope(1, SessionSide::T, Some(9), 6)),
        Err(DeliveryError::PqHalfMissing { pair_id: 9 })
    );
    assert_eq!(service.total_pending(), 4);
    let tags: Vec<u8> = service
        .deliver_all(&group)
        .iter()
        .map(|e| e.message.bytes[0])
        .collect();
    assert_eq!(tags, vec![1, 2, 5]);
    assert_eq!(service.total_pending(), 1);
    assert!(service.deliver_all(&group).is_empty());
}

fn metadata(mode: SecurityMode) -> ConversationMetadata {
    ConversationMetadata::new(
        b"c".to_vec(),
        ConversationSecurityState::new(mode),
        None,
        None,
        None,
        0,
    )
}

#[test]
fn refused_requests_change_nothing() {
    let mut service = ConversationMetadataService::new();
    assert!(service.is_empty());
    service
        .register(metadata(SecurityMode::PqAuthenticity))
        .unwrap();
    assert_eq!(
        service.update_security_state(b"c", SecurityMode::Classical),
        Err(MetadataError::DowngradeRejected(
            DowngradeError::ModeDowngrade {
                from: SecurityMode::PqAuthenticity,
                to: SecurityMode::Classical
            }
        ))
    );
    assert_eq!(
        service.get(b"c"),
        Some(&metadata(SecurityMode::PqAuthenticity))
    );
    let weaker = ApqInfo::new(
        GroupId::from_slice(&[1]),
        GroupId::from_slice(&[2]),
        0,
        0,
        SUITES[0],
        SUITES[7],
        SecurityMode::PqConfidentiality,
    );
    assert_eq!(service.update_apq_info(b"c", weaker), Ok(()));
    assert_eq!(service.len(), 1);
}

#[test]
fn rows_migrate_their_drafts() {
    let table = CodepointMigration::new(
        vec![CiphersuiteRow {
            draft: SUITES[7],
            final_value: SUITES[0],
        }],
        vec![KemRow {
            draft: HpkeKemType::XWingKemDraft6,
            final_value: HpkeKemType::DhKem25519,
        }],
        vec![SigRow {
            draft: SignatureScheme::MLDSA65,
            final_value: SignatureScheme::ED25519,
        }],
    );
    assert_eq!(table.migrate_ciphersuite(SUITES[7]), Some(SUITES[0]));
    assert!(table.can_migrate(SUITES[7]) && !table.can_migrate(SUITES[8]));
    assert_eq!(
        table.migrate_kem_type(HpkeKemType::XWingKemDraft6),
        Some(HpkeKemType::DhKem25519)
    );
    assert_eq!(
        table.migrate_signature_scheme(SignatureScheme::MLDSA65),
        Some(SignatureScheme::ED25519)
    );
    let mut state = ConversationSecurityState::new(SecurityMode::PqConfidentiality);
    state.pinned_ciphersuite = Some(SUITES[7]);
    assert!(table.migrate_state(&mut state));
    assert_eq!(state.pinned_ciphersuite, Some(SUITES[0]));
    assert!(!table.migrate_state(&mut state));
    let copy = table.clone();
    for cs in SUITES {
        assert_eq!(copy.migrate_ciphersuite(cs), table.migrate_ciphersuite(cs));
    }
    assert_eq!(
        copy.migrate_kem_type(HpkeKemType::XWingKemDraft6),
        Some(HpkeKemType::DhKem25519)
    );
    assert_eq!(
        copy.migrate_signature_scheme(SignatureScheme::MLDSA65),
        Some(SignatureScheme::ED25519)
    );
}

#[test]
fn lifecycles_follow_the_machine() {
    let mut machine = MigrationStateMachine::new(b"c".to_vec());
    let mut seen = vec![];
    for event in [
        MigrationEvent::CapabilitiesReady,
        MigrationEvent::KeyPackagesReady,
        MigrationEvent::ModeSelected(SecurityMode::Classical),
        MigrationEvent::BootstrapStarted,
        MigrationEvent::BootstrapDone,
        MigrationEvent::FirstFullCommitDone,
        MigrationEvent::CapabilitiesReady,
    ] {
        machine.advance(event).ok();
        seen.push(ConversationLifecycle::from_state_machine(&machine));
    }
    assert_eq!(
        seen,
        vec![
            ConversationLifecycle::UpgradeEligible,
            ConversationLifecycle::UpgradeProposed,
            ConversationLifecycle::UpgradeProposed,
            ConversationLifecycle::UpgradeInProgress,
            ConversationLifecycle::PqActive,
            ConversationLifecycle::PqActive,
            ConversationLifecycle::PqActive,
        ]
    );
    assert_eq!(machine.conversation_id(), b"c");
}

#[test]
fn each_field_shows_in_the_payload() {
    let capability = pq_capability();
    let payload = capability.serializable_payload();
    let mut other = capability.clone();
    other.mls_version += 1;
    assert_ne!(other.serializable_payload(), payload);
    let mut other = capability.clone();
    other.classical_ciphersuites.clear();
    assert_ne!(other.serializable_payload(), payload);
    let mut other = capability.clone();
    other.pq_ciphersuites.clear();
    assert_ne!(other.serializable_payload(), payload);
    let mut other = capability.clone();
    other.apq_supported = !other.apq_supported;
    assert_ne!(other.serializable_payload(), payload);
    let mut other = capability.clone();
    other.pq_auth_supported = !other.pq_auth_supported;
    assert_ne!(other.serializable_payload(), payload);
    let mut other = capability.clone();
    other.provider_id.push('x');
    assert_ne!(other.serializable_payload(), payload);
}

#[test]
fn versions_are_asked_of_known_devices_only() {
    let request = CapabilityFetchRequest {
        keys: vec![CapabilityFetchKey {
            user_id: VLBytes::new(vec![1]),
            device_id: VLBytes::new(vec![2]),
        }],
    };
    let response = process_fetch(&CapabilityRegistry::new(), &request, |_, _| {
        panic!("no version of an unknown device")
    });
    assert_eq!(response.entries.len(), 1);
    assert_eq!(response.entries[0].capability, None);
    assert_eq!(response.entries[0].version, 0);
}

#[test]
fn what_waits_is_what_was_taken_less_what_was_delivered() {
    let mut service = DeliveryService::new();
    let mut taken = 0;
    let mut delivered = 0;
    for (group, side, pair) in [
        (1, SessionSide::Pq, Some(7)),
        (2, SessionSide::T, None),
        (2, SessionSide::T, Some(7)),
        (3, SessionSide::Pq, Some(7)),
        (3, SessionSide::Pq, Some(7)),
    ] {
        if service.enqueue(envelope(group, side, pair, 0)).is_ok() {
            taken += 1;
        }
    }
    assert_eq!(taken, 3);
    for group in [2, 2, 9] {
        if service.deliver_next(&GroupId::from_slice(&[group])).is_some() {
            delivered += 1;
        }
        assert_eq!(service.total_pending(), taken - delivered);
    }
    delivered += service.deliver_all(&GroupId::from_slice(&[1])).len();
    delivered += service.deliver_all(&GroupId::from_slice(&[3])).len();
    assert_eq!(service.total_pending(), taken - delivered);
    assert_eq!(service.total_pending(), 0);
    assert!(service.is_empty());
    assert_eq!(service.pending_full_commit_pairs(&GroupId::from_slice(&[1])), 1);
}
