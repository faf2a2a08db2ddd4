//! How often key packages can be fetched.
use kchat_mls::key_packages::rate_limiter::{KeyPackageFetchRateLimiter, RateLimitError};

#[test]
fn under_limit_is_accepted() {
    let mut rl = KeyPackageFetchRateLimiter::new(3, 60);
    for t in [0_u64, 5, 30] {
        rl.check_and_record(b"alice", b"phone", t)
            .expect("under limit");
    }
    assert_eq!(rl.tracked_devices(), 1);
}

#[test]
fn at_limit_rejects_next_fetch() {
    let mut rl = KeyPackageFetchRateLimiter::new(2, 60);
    rl.check_and_record(b"alice", b"phone", 0).unwrap();
    rl.check_and_record(b"alice", b"phone", 5).unwrap();

    let err = rl
        .check_and_record(b"alice", b"phone", 30)
        .expect_err("third fetch must be rejected");
    match err {
        RateLimitError::Exceeded {
            limit,
            window_secs,
            user_id,
            device_id,
        } => {
            assert_eq!(limit, 2);
            assert_eq!(window_secs, 60);
            assert_eq!(user_id, b"alice".to_vec());
            assert_eq!(device_id, b"phone".to_vec());
        }
    }
}

#[test]
fn window_expiry_allows_new_fetches() {
    let mut rl = KeyPackageFetchRateLimiter::new(2, 60);
    rl.check_and_record(b"alice", b"phone", 0).unwrap();
    rl.check_and_record(b"alice", b"phone", 5).unwrap();

    rl.check_and_record(b"alice", b"phone", 100)
        .expect("post-window fetch ok");

    let entry = rl.recorded(b"alice", b"phone")
        .unwrap();
    assert_eq!(entry.len(), 1);
    assert_eq!(entry[0], 100);
}

#[test]
fn limits_are_per_device() {
    let mut rl = KeyPackageFetchRateLimiter::new(1, 60);
    rl.check_and_record(b"alice", b"phone", 0).unwrap();
    rl.check_and_record(b"alice", b"laptop", 0).unwrap();
    rl.check_and_record(b"bob", b"phone", 0).unwrap();

    assert!(rl.check_and_record(b"alice", b"phone", 1).is_err());
}

#[test]
fn reset_clears_a_specific_device_only() {
    let mut rl = KeyPackageFetchRateLimiter::new(1, 60);
    rl.check_and_record(b"alice", b"phone", 0).unwrap();
    rl.check_and_record(b"bob", b"phone", 0).unwrap();

    rl.reset(b"alice", b"phone");

    rl.check_and_record(b"alice", b"phone", 1)
        .expect("alice reset works");
    assert!(rl.check_and_record(b"bob", b"phone", 1).is_err());
}

#[test]
fn small_window_with_zero_cap_rejects_immediately() {
    let mut rl = KeyPackageFetchRateLimiter::new(0, 60);
    let err = rl
        .check_and_record(b"alice", b"phone", 0)
        .expect_err("zero cap means every fetch is rejected");
    assert!(matches!(err, RateLimitError::Exceeded { limit: 0, .. }));
}

#[test]
fn timestamps_at_window_boundary_count_as_in_window() {
    let mut rl = KeyPackageFetchRateLimiter::new(1, 10);
    rl.check_and_record(b"alice", b"phone", 0).unwrap();
    let err = rl
        .check_and_record(b"alice", b"phone", 10)
        .expect_err("boundary inclusive");
    assert!(matches!(err, RateLimitError::Exceeded { .. }));
    rl.check_and_record(b"alice", b"phone", 11)
        .expect("just past window");
}
