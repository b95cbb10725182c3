//! The delta/rate engine on concrete counter pairs.

use below_model::rate::{
    count_per_sec, count_per_sec_u64, opt_add_milli, opt_add_u64, usec_pct,
};

#[test]
fn usec_pct_basic_hundred_percent() {
    // 1s of CPU time over 1s of wall time: 100%, carried as 100_000 milli.
    let r = usec_pct(Some(1_000_000), Some(2_000_000), 1_000_000);
    assert_eq!(r, Some(100_000));
}

#[test]
fn usec_pct_half_percent() {
    // 5ms over 1s: 0.5%, carried as 500 milli-percent.
    let r = usec_pct(Some(0), Some(5_000), 1_000_000);
    assert_eq!(r, Some(500));
}

#[test]
fn usec_pct_missing_operand_is_none() {
    assert_eq!(usec_pct(None, Some(10), 1_000_000), None);
    assert_eq!(usec_pct(Some(10), None, 1_000_000), None);
    assert_eq!(usec_pct(None, None, 1_000_000), None);
}

#[test]
fn usec_pct_zero_elapsed_is_none() {
    // Division by zero is avoided, not fatal: elapsed == 0 derives to None.
    assert_eq!(usec_pct(Some(1), Some(2), 0), None);
    assert_eq!(usec_pct(None, Some(2), 0), None);
    assert_eq!(usec_pct(Some(1), None, 0), None);
    assert_eq!(usec_pct(None, None, 0), None);
}

#[test]
fn rollback_yields_signed_rate_not_zero() {
    // begin > end: the raw signed difference over elapsed, no clamping.
    let r = usec_pct(Some(2_000_000), Some(1_000_000), 1_000_000);
    assert_eq!(r, Some(-100_000));
    let c = count_per_sec(Some(500), Some(200), 1_000_000);
    assert_eq!(c, Some(-300_000));
}

#[test]
fn count_per_sec_basic() {
    // 300 events over 2s: 150 per second, carried as 150_000 milli.
    let r = count_per_sec(Some(100), Some(400), 2_000_000);
    assert_eq!(r, Some(150_000));
}

#[test]
fn count_per_sec_u64_truncates_and_floors_rollback_at_zero() {
    assert_eq!(count_per_sec_u64(Some(100), Some(400), 2_000_000), Some(150));
    // Truncation toward zero: 1 event over 2s is 0 whole events per second.
    assert_eq!(count_per_sec_u64(Some(0), Some(1), 2_000_000), Some(0));
    // A rolled-back counter floors at zero in the unsigned form.
    assert_eq!(count_per_sec_u64(Some(400), Some(100), 2_000_000), Some(0));
    assert_eq!(count_per_sec_u64(Some(1), Some(2), 0), None);
    assert_eq!(count_per_sec_u64(None, Some(2), 1_000_000), None);
}

#[test]
fn opt_add_laws() {
    // None is the additive identity, not zero.
    assert_eq!(opt_add_u64(None, None), None);
    assert_eq!(opt_add_u64(None, Some(7)), Some(7));
    assert_eq!(opt_add_u64(Some(7), None), Some(7));
    assert_eq!(opt_add_u64(Some(3), Some(4)), Some(7));
    assert_eq!(opt_add_milli(None, None), None);
    assert_eq!(opt_add_milli(None, Some(-5)), Some(-5));
    assert_eq!(opt_add_milli(Some(-5), None), Some(-5));
    assert_eq!(opt_add_milli(Some(2), Some(-5)), Some(-3));
}

#[test]
fn opt_add_saturates_at_machine_limits() {
    assert_eq!(opt_add_u64(Some(u64::MAX), Some(1)), Some(u64::MAX));
    assert_eq!(opt_add_milli(Some(i64::MAX), Some(1)), Some(i64::MAX));
    assert_eq!(opt_add_milli(Some(i64::MIN), Some(-1)), Some(i64::MIN));
}
