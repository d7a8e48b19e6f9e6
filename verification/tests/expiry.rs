use payinbox::error::ErrorCode;
use payinbox::expiry::{compute_expiry, is_expired, MAX_EXPIRY_SECONDS, MIN_EXPIRY_SECONDS};

#[test]
fn expiry_window_is_one_hour_to_seven_days() {
    assert_eq!(MIN_EXPIRY_SECONDS, 3600);
    assert_eq!(MAX_EXPIRY_SECONDS, 7 * 24 * 3600);
}

#[test]
fn compute_expiry_adds_the_hours_in_seconds() {
    assert_eq!(compute_expiry(0, 1), Ok(3600));
    assert_eq!(compute_expiry(0, 24), Ok(86_400));
    assert_eq!(compute_expiry(1_700_000_000, 24), Ok(1_700_086_400));
    assert_eq!(compute_expiry(1_700_000_000, 168), Ok(1_700_604_800));
    assert_eq!(compute_expiry(-10_000, 2), Ok(-2_800));
}

#[test]
fn compute_expiry_rejects_lifetimes_outside_the_window() {
    assert_eq!(compute_expiry(1_700_000_000, 0), Err(ErrorCode::InvalidExpiry));
    assert_eq!(compute_expiry(1_700_000_000, 169), Err(ErrorCode::InvalidExpiry));
    assert_eq!(compute_expiry(1_700_000_000, -1), Err(ErrorCode::InvalidExpiry));
    assert_eq!(compute_expiry(1_700_000_000, i64::MIN), Err(ErrorCode::InvalidExpiry));
}

#[test]
fn compute_expiry_rejects_a_lifetime_whose_seconds_overflow() {
    // The lifetime is judged before it is added to anything.
    assert_eq!(compute_expiry(0, i64::MAX), Err(ErrorCode::InvalidExpiry));
    assert_eq!(compute_expiry(i64::MAX, i64::MAX / 3600 + 1), Err(ErrorCode::InvalidExpiry));
}

#[test]
fn compute_expiry_never_wraps() {
    assert_eq!(compute_expiry(i64::MAX, 1), Err(ErrorCode::Overflow));
    assert_eq!(compute_expiry(i64::MAX - 3599, 1), Err(ErrorCode::Overflow));
    assert_eq!(compute_expiry(i64::MAX - 3600, 1), Ok(i64::MAX));
    assert_eq!(compute_expiry(i64::MAX - 604_799, 168), Err(ErrorCode::Overflow));
    assert_eq!(compute_expiry(i64::MAX - 604_800, 168), Ok(i64::MAX));
    assert_eq!(compute_expiry(i64::MIN, 1), Ok(i64::MIN + 3600));
}

#[test]
fn is_expired_counts_the_deadline_itself() {
    assert!(!is_expired(999, 1000));
    assert!(is_expired(1000, 1000));
    assert!(is_expired(1001, 1000));
    assert!(!is_expired(i64::MIN, i64::MAX));
    assert!(is_expired(i64::MAX, i64::MIN));
}
