use warden::exception::RateLimitException;
use warden::rate_limit::{leaky_bucket, AdmissionController};

const SECOND: u64 = 1_000_000_000;

#[test]
fn default_policy_admits_two_then_rejects_then_admits_again() {
    let mut controller = leaky_bucket();
    let key = (1u128, 8080u16);
    assert_eq!(controller.check(key, 5 * SECOND), Ok(()));
    assert_eq!(controller.check(key, 5 * SECOND), Ok(()));
    assert_eq!(
        controller.check(key, 5 * SECOND),
        Err(RateLimitException { wait_time_millis: 1000 })
    );
    assert_eq!(controller.check(key, 6 * SECOND), Ok(()));
}

#[test]
fn third_immediate_request_waits_for_one_token() {
    let mut controller = leaky_bucket();
    let key = (7u128, 1u16);
    assert_eq!(controller.check(key, 0), Ok(()));
    assert_eq!(controller.check(key, 0), Ok(()));
    assert_eq!(
        controller.check(key, 0),
        Err(RateLimitException { wait_time_millis: 1000 })
    );
    assert_eq!(
        controller.check(key, 100_000_000),
        Err(RateLimitException { wait_time_millis: 900 })
    );
    assert_eq!(
        controller.check(key, 999_999_999),
        Err(RateLimitException { wait_time_millis: 0 })
    );
    assert_eq!(controller.check(key, SECOND), Ok(()));
    assert_eq!(
        controller.check(key, SECOND),
        Err(RateLimitException { wait_time_millis: 1000 })
    );
}

#[test]
fn rejection_changes_nothing() {
    let mut controller = leaky_bucket();
    let key = (7u128, 1u16);
    assert_eq!(controller.check(key, 0), Ok(()));
    assert_eq!(controller.check(key, 0), Ok(()));
    for _ in 0..10 {
        assert_eq!(
            controller.check(key, 0),
            Err(RateLimitException { wait_time_millis: 1000 })
        );
    }
    assert_eq!(controller.check(key, SECOND), Ok(()));
}

#[test]
fn clients_are_isolated() {
    let mut controller = leaky_bucket();
    let busy = (1u128, 1u16);
    let other = (1u128, 2u16);
    assert_eq!(controller.check(busy, 0), Ok(()));
    assert_eq!(controller.check(busy, 0), Ok(()));
    assert!(controller.check(busy, 0).is_err());
    assert_eq!(controller.check(other, 0), Ok(()));
    assert_eq!(controller.check(other, 0), Ok(()));
    assert!(controller.check(other, 0).is_err());
    assert!(controller.check(busy, 0).is_err());
}

#[test]
fn burst_admits_exactly_the_capacity() {
    for capacity in 1u32..6u32 {
        let mut controller = AdmissionController::new(capacity, 600_000_000);
        let key = (9u128, 9u16);
        let mut admitted = 0;
        for _ in 0..20 {
            if controller.check(key, 42).is_ok() {
                admitted += 1;
            }
        }
        assert_eq!(admitted, capacity);
    }
}

#[test]
fn bucket_refills_one_token_per_interval() {
    let mut controller = AdmissionController::new(4, SECOND);
    let key = (3u128, 3u16);
    for _ in 0..4 {
        assert_eq!(controller.check(key, 10), Ok(()));
    }
    assert_eq!(
        controller.check(key, 10),
        Err(RateLimitException { wait_time_millis: 250 })
    );
    assert_eq!(controller.check(key, 10 + 250_000_000), Ok(()));
    assert!(controller.check(key, 10 + 250_000_000).is_err());
    assert_eq!(controller.check(key, 10 + 2 * SECOND), Ok(()));
}

#[test]
fn time_that_runs_backwards_drains_nothing() {
    let mut controller = leaky_bucket();
    let key = (2u128, 2u16);
    assert_eq!(controller.check(key, SECOND), Ok(()));
    assert_eq!(controller.check(key, SECOND), Ok(()));
    assert_eq!(
        controller.check(key, 0),
        Err(RateLimitException { wait_time_millis: 2000 })
    );
}

#[test]
fn one_token_is_the_period_divided_by_the_capacity_rounded_down() {
    let mut controller = AdmissionController::new(3, 1_000_000_002);
    let key = (4u128, 4u16);
    for _ in 0..3 {
        assert_eq!(controller.check(key, 0), Ok(()));
    }
    assert_eq!(
        controller.check(key, 333_333_332),
        Err(RateLimitException { wait_time_millis: 0 })
    );
    assert_eq!(controller.check(key, 333_333_334), Ok(()));

    let mut controller = AdmissionController::new(3, 1_000_000_001);
    for _ in 0..3 {
        assert_eq!(controller.check(key, 0), Ok(()));
    }
    assert_eq!(
        controller.check(key, 0),
        Err(RateLimitException { wait_time_millis: 333 })
    );
    assert_eq!(controller.check(key, 333_333_331), Ok(()));
}

#[test]
fn a_policy_that_is_not_exact_admits_more_than_its_capacity() {
    let mut controller = AdmissionController::new(2, 3);
    let key = (5u128, 5u16);
    let mut admitted = 0;
    for _ in 0..10 {
        if controller.check(key, 0).is_ok() {
            admitted += 1;
        }
    }
    assert_eq!(admitted, 3);
}
