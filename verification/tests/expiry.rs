use hmt_escrow::error::EscrowError;
use hmt_escrow::processor::check_not_expired;

#[test]
fn succeeds_strictly_before_the_boundary() {
    assert_eq!(check_not_expired(0, 100, 50), Ok(()));
    assert_eq!(check_not_expired(100, 100, 50), Ok(()));
    assert_eq!(check_not_expired(149, 100, 50), Ok(()));
}

#[test]
fn fails_at_and_after_the_boundary() {
    assert_eq!(check_not_expired(150, 100, 50), Err(EscrowError::EscrowExpired));
    assert_eq!(check_not_expired(151, 100, 50), Err(EscrowError::EscrowExpired));
    assert_eq!(
        check_not_expired(u64::MAX, 100, 50),
        Err(EscrowError::EscrowExpired)
    );
}

#[test]
fn zero_duration_is_expired_at_creation() {
    assert_eq!(check_not_expired(100, 100, 0), Err(EscrowError::EscrowExpired));
    assert_eq!(check_not_expired(99, 100, 0), Ok(()));
}

#[test]
fn window_past_the_integer_range_never_expires() {
    assert_eq!(check_not_expired(u64::MAX, u64::MAX, 1), Ok(()));
    assert_eq!(check_not_expired(u64::MAX, 1, u64::MAX), Ok(()));
}
