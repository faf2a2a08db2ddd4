//! Key packages, handed out one by one.
use kchat_mls::crypto::CryptoProvider;
use kchat_mls::key_packages::key_package_service::{KeyPackageEntry, KeyPackageService, ServiceError};
use kchat_mls::key_packages::multi_ciphersuite::MAX_KEY_PACKAGES_PER_DEVICE;
use kchat_mls::mls::KeyPackage;
use kchat_mls::types::Ciphersuite;

fn classical_cs() -> Ciphersuite {
    Ciphersuite::MLS_128_DHKEMX25519_AES128GCM_SHA256_Ed25519
}

fn fresh_kp(provider: &CryptoProvider, name: &str) -> KeyPackage {
    let cs = classical_cs();
    let (_, public) = provider
        .signature_key_gen(cs.signature_algorithm())
        .expect("signer");
    let mut bytes = name.as_bytes().to_vec();
    bytes.extend_from_slice(&public);
    KeyPackage::new(cs, bytes)
}

fn entry(provider: &CryptoProvider, expiry: u64, last_resort: bool) -> KeyPackageEntry {
    KeyPackageEntry::new(fresh_kp(provider, "alice"), 1, expiry, last_resort)
}

#[test]
fn publish_then_fetch_returns_the_entry_and_consumes_it() {
    let provider = CryptoProvider::new().expect("crypto provider");
    let mut svc = KeyPackageService::new();
    let kpe = entry(&provider, 100, false);
    let cs = kpe.ciphersuite();
    svc.publish(b"alice".to_vec(), b"phone".to_vec(), kpe.clone())
        .expect("publish");
    assert_eq!(svc.total_len(), 1);

    let fetched = svc
        .fetch(b"alice", b"phone", cs)
        .expect("fetch returns the KP");
    assert_eq!(fetched.key_package, kpe.key_package);
    assert!(svc.fetch(b"alice", b"phone", cs).is_none());
    assert!(svc.is_empty());
}

#[test]
fn last_resort_is_not_consumed_on_fetch() {
    let provider = CryptoProvider::new().expect("crypto provider");
    let mut svc = KeyPackageService::new();
    let kpe = entry(&provider, 100, true);
    let cs = kpe.ciphersuite();
    svc.publish(b"alice".to_vec(), b"phone".to_vec(), kpe.clone())
        .expect("publish");

    let first = svc.fetch(b"alice", b"phone", cs).expect("fetch 1");
    assert_eq!(first.key_package, kpe.key_package);
    let second = svc.fetch(b"alice", b"phone", cs).expect("fetch 2");
    assert_eq!(second.key_package, kpe.key_package);

    let lr = svc
        .fetch_last_resort(b"alice", b"phone", cs)
        .expect("last-resort still present");
    assert_eq!(lr.key_package, kpe.key_package);
    assert!(lr.last_resort);
}

#[test]
fn standard_kp_takes_precedence_over_last_resort() {
    let provider = CryptoProvider::new().expect("crypto provider");
    let mut svc = KeyPackageService::new();
    let lr = entry(&provider, 100, true);
    let std = entry(&provider, 100, false);
    let cs = lr.ciphersuite();
    svc.publish(b"alice".to_vec(), b"phone".to_vec(), lr.clone())
        .expect("publish lr");
    svc.publish(b"alice".to_vec(), b"phone".to_vec(), std.clone())
        .expect("publish std");

    let first = svc.fetch(b"alice", b"phone", cs).expect("fetch 1");
    assert_eq!(first.key_package, std.key_package);
    assert!(!first.last_resort);

    let second = svc.fetch(b"alice", b"phone", cs).expect("fetch 2");
    assert_eq!(second.key_package, lr.key_package);
    assert!(second.last_resort);
}

#[test]
fn expire_before_purges_expired_entries() {
    let provider = CryptoProvider::new().expect("crypto provider");
    let mut svc = KeyPackageService::new();

    let stale = entry(&provider, 50, false);
    let fresh = entry(&provider, 200, false);
    svc.publish(b"alice".to_vec(), b"phone".to_vec(), stale)
        .expect("publish stale");
    svc.publish(b"bob".to_vec(), b"phone".to_vec(), fresh)
        .expect("publish fresh");
    assert_eq!(svc.total_len(), 2);

    let removed = svc.expire_before(100);
    assert_eq!(removed, 1);
    assert_eq!(svc.total_len(), 1);
    assert!(svc.fetch(b"alice", b"phone", classical_cs()).is_none());
    assert!(svc.fetch(b"bob", b"phone", classical_cs()).is_some());
}

#[test]
fn expire_before_purges_expired_last_resort() {
    let provider = CryptoProvider::new().expect("crypto provider");
    let mut svc = KeyPackageService::new();
    let stale_lr = entry(&provider, 50, true);
    svc.publish(b"alice".to_vec(), b"phone".to_vec(), stale_lr)
        .expect("publish");
    assert_eq!(svc.total_len(), 1);
    assert_eq!(svc.expire_before(100), 1);
    assert!(svc.is_empty());
}

#[test]
fn publish_rejects_per_device_cap_overflow() {
    let provider = CryptoProvider::new().expect("crypto provider");
    let mut svc = KeyPackageService::new();

    for i in 0..MAX_KEY_PACKAGES_PER_DEVICE {
        let device = format!("phone-{i}");
        svc.publish(
            b"alice".to_vec(),
            device.into_bytes(),
            entry(&provider, 100, false),
        )
        .expect("each device starts empty");
    }
    let mut svc2 = KeyPackageService::new();
    svc2.publish(
        b"bob".to_vec(),
        b"phone".to_vec(),
        entry(&provider, 100, false),
    )
    .expect("first publish");
    let dup_err = svc2
        .publish(
            b"bob".to_vec(),
            b"phone".to_vec(),
            entry(&provider, 100, false),
        )
        .expect_err("duplicate slot rejected");
    assert!(matches!(dup_err, ServiceError::DuplicateEntry { .. }));
    assert_eq!(svc2.count_for_device(b"bob", b"phone"), 1);
}

#[test]
fn count_for_device_counts_standard_and_last_resort_together() {
    let provider = CryptoProvider::new().expect("crypto provider");
    let mut svc = KeyPackageService::new();
    svc.publish(
        b"alice".to_vec(),
        b"phone".to_vec(),
        entry(&provider, 100, false),
    )
    .expect("std publish");
    svc.publish(
        b"alice".to_vec(),
        b"phone".to_vec(),
        entry(&provider, 100, true),
    )
    .expect("lr publish");
    assert_eq!(svc.count_for_device(b"alice", b"phone"), 2);
    assert_eq!(svc.count_for_device(b"bob", b"phone"), 0);
}

#[test]
fn fetch_returns_none_for_missing_slot() {
    let svc = KeyPackageService::new();
    assert!(svc
        .fetch_last_resort(b"alice", b"phone", classical_cs())
        .is_none());

    let mut svc = svc;
    assert!(svc.fetch(b"alice", b"phone", classical_cs()).is_none());
}
