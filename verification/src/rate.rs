//! The delta/rate engine: pure functions that turn two raw counter readings
//! plus an elapsed duration into a normalized metric.
//!
//! Derived metrics are exact fixed-point numbers in thousandths (milli-units):
//! a percentage of `12.5` is carried as `12_500` milli-percent, a rate of
//! `3.25` events per second as `3_250` milli-events-per-second. Magnitudes
//! saturate at `i64::MAX` milli-units; a result is `None` exactly when an
//! operand is absent or the elapsed time is zero.

use vstd::prelude::*;

verus! {

/// Milli-percent per microsecond of delta over one microsecond of elapsed
/// time: `diff / elapsed * 100` percent, carried in thousandths.
pub const PCT_MILLI_SCALE: u64 = 100_000;

/// Milli-units-per-second per count of delta over one microsecond of elapsed
/// time: `diff / (elapsed / 1_000_000)` per second, carried in thousandths.
pub const PER_SEC_MILLI_SCALE: u64 = 1_000_000_000;

/// Whole units-per-second per count of delta over one microsecond of elapsed
/// time.
pub const PER_SEC_SCALE: u64 = 1_000_000;

/// A nonnegative magnitude clamped to the largest signed 64-bit value.
pub open spec fn clamp_mag_i64(x: int) -> int {
    if x > i64::MAX {
        i64::MAX as int
    } else {
        x
    }
}

/// The signed, scaled quotient of a counter delta over an elapsed time:
/// `(end - begin) * scale / elapsed`, truncated toward zero, with the
/// magnitude saturating at `i64::MAX`. A rolled-back counter (`end < begin`)
/// yields the raw signed difference over the elapsed time, not zero.
pub open spec fn scaled_delta(begin: u64, end: u64, scale: u64, elapsed: u64) -> int
    recommends
        elapsed > 0,
{
    if end >= begin {
        clamp_mag_i64(((end - begin) * scale) / (elapsed as int))
    } else {
        -clamp_mag_i64(((begin - end) * scale) / (elapsed as int))
    }
}

fn scaled_delta_exec(begin: u64, end: u64, scale: u64, elapsed: u64) -> (r: i64)
    requires
        elapsed > 0,
        scale <= 1_000_000_000,
    ensures
        r as int == scaled_delta(begin, end, scale, elapsed),
{
    if end >= begin {
        let diff: u128 = (end - begin) as u128;
        proof {
            lemma_scaled_product_fits(diff, scale);
        }
        let q: u128 = diff * (scale as u128) / (elapsed as u128);
        if q > i64::MAX as u128 {
            i64::MAX
        } else {
            q as i64
        }
    } else {
        let diff: u128 = (begin - end) as u128;
        proof {
            lemma_scaled_product_fits(diff, scale);
        }
        let q: u128 = diff * (scale as u128) / (elapsed as u128);
        if q > i64::MAX as u128 {
            -i64::MAX
        } else {
            -(q as i64)
        }
    }
}

proof fn lemma_scaled_product_fits(diff: u128, scale: u64)
    requires
        diff <= u64::MAX,
        scale <= 1_000_000_000,
    ensures
        diff * scale <= u128::MAX,
{
    assert(diff * scale <= u64::MAX * 1_000_000_000) by (nonlinear_arith)
        requires
            diff <= u64::MAX,
            scale <= 1_000_000_000,
    ;
}

/// What a microsecond-counter pair derives to: milli-percent of the elapsed
/// time spent, `None` when an operand is absent or no time elapsed.
pub open spec fn usec_pct_spec(begin: Option<u64>, end: Option<u64>, elapsed_us: u64) -> Option<
    i64,
> {
    if begin is Some && end is Some && elapsed_us > 0 {
        Some(scaled_delta(begin->0, end->0, PCT_MILLI_SCALE, elapsed_us) as i64)
    } else {
        None
    }
}

/// Percentage from a pair of cumulative microsecond counters:
/// `(end - begin) / elapsed * 100`, in milli-percent. Absent operands and a
/// zero elapsed time derive to `None`, never to an error.
pub fn usec_pct(begin: Option<u64>, end: Option<u64>, elapsed_us: u64) -> (r: Option<i64>)
    ensures
        r == usec_pct_spec(begin, end, elapsed_us),
{
    match (begin, end) {
        (Some(b), Some(e)) => {
            if elapsed_us > 0 {
                Some(scaled_delta_exec(b, e, PCT_MILLI_SCALE, elapsed_us))
            } else {
                None
            }
        },
        _ => None,
    }
}

/// What a plain-count pair derives to: milli-units per second, `None` when an
/// operand is absent or no time elapsed.
pub open spec fn count_per_sec_spec(begin: Option<u64>, end: Option<u64>, elapsed_us: u64) -> Option<
    i64,
> {
    if begin is Some && end is Some && elapsed_us > 0 {
        Some(scaled_delta(begin->0, end->0, PER_SEC_MILLI_SCALE, elapsed_us) as i64)
    } else {
        None
    }
}

/// Per-second rate from a pair of cumulative counters:
/// `(end - begin) / elapsed_in_seconds`, in milli-units per second. Absent
/// operands and a zero elapsed time derive to `None`.
pub fn count_per_sec(begin: Option<u64>, end: Option<u64>, elapsed_us: u64) -> (r: Option<i64>)
    ensures
        r == count_per_sec_spec(begin, end, elapsed_us),
{
    match (begin, end) {
        (Some(b), Some(e)) => {
            if elapsed_us > 0 {
                Some(scaled_delta_exec(b, e, PER_SEC_MILLI_SCALE, elapsed_us))
            } else {
                None
            }
        },
        _ => None,
    }
}

/// What a plain-count pair derives to in whole units per second, truncated:
/// a rolled-back counter floors at zero, a too-large quotient saturates.
pub open spec fn count_per_sec_u64_spec(
    begin: Option<u64>,
    end: Option<u64>,
    elapsed_us: u64,
) -> Option<u64> {
    if begin is Some && end is Some && elapsed_us > 0 {
        if end->0 >= begin->0 {
            Some(sat_to_u64(((end->0 - begin->0) * PER_SEC_SCALE) / (elapsed_us as int)))
        } else {
            Some(0u64)
        }
    } else {
        None
    }
}

/// A nonnegative value clamped to the largest unsigned 64-bit value.
pub open spec fn sat_to_u64(x: int) -> u64 {
    if x > u64::MAX {
        u64::MAX
    } else {
        x as u64
    }
}

/// Per-second rate truncated to whole units, for gauge-like counters kept as
/// integers. A rolled-back counter derives to zero rather than a negative
/// value.
pub fn count_per_sec_u64(begin: Option<u64>, end: Option<u64>, elapsed_us: u64) -> (r: Option<u64>)
    ensures
        r == count_per_sec_u64_spec(begin, end, elapsed_us),
{
    match (begin, end) {
        (Some(b), Some(e)) => {
            if elapsed_us > 0 {
                if e >= b {
                    let q: u128 = ((e - b) as u128) * (PER_SEC_SCALE as u128) / (elapsed_us
                        as u128);
                    if q > u64::MAX as u128 {
                        Some(u64::MAX)
                    } else {
                        Some(q as u64)
                    }
                } else {
                    Some(0)
                }
            } else {
                None
            }
        },
        _ => None,
    }
}

/// Sum of two unsigned counters, saturating at the machine limit.
pub open spec fn sat_add_u64(a: u64, b: u64) -> u64 {
    if a + b <= u64::MAX {
        (a + b) as u64
    } else {
        u64::MAX
    }
}

/// Sum of two signed milli-unit values, saturating at the machine limits.
pub open spec fn sat_add_i64(a: i64, b: i64) -> i64 {
    if a + b > i64::MAX {
        i64::MAX
    } else if a + b < i64::MIN {
        i64::MIN
    } else {
        (a + b) as i64
    }
}

/// What optional addition yields: absence is the additive identity, not
/// zero, so `None + None` stays `None` while a single present operand comes
/// back unchanged. Present pairs add with saturation at `u64::MAX`.
pub open spec fn opt_add_u64_spec(a: Option<u64>, b: Option<u64>) -> Option<u64> {
    match (a, b) {
        (Some(x), Some(y)) => Some(sat_add_u64(x, y)),
        (Some(x), None) => Some(x),
        (None, Some(y)) => Some(y),
        (None, None) => None,
    }
}

/// The counterpart for signed milli-unit metrics, saturating at the `i64`
/// limits.
pub open spec fn opt_add_milli_spec(a: Option<i64>, b: Option<i64>) -> Option<i64> {
    match (a, b) {
        (Some(x), Some(y)) => Some(sat_add_i64(x, y)),
        (Some(x), None) => Some(x),
        (None, Some(y)) => Some(y),
        (None, None) => None,
    }
}

/// Addition over optional counters: absence is the additive identity, not
/// zero, so `None + None` stays `None` while a single present operand is
/// returned unchanged. Present pairs add with saturation at `u64::MAX`.
pub fn opt_add_u64(a: Option<u64>, b: Option<u64>) -> (r: Option<u64>)
    ensures
        r == opt_add_u64_spec(a, b),
{
    match (a, b) {
        (Some(x), Some(y)) => {
            if x <= u64::MAX - y {
                Some(x + y)
            } else {
                Some(u64::MAX)
            }
        },
        (Some(x), None) => Some(x),
        (None, Some(y)) => Some(y),
        (None, None) => None,
    }
}

/// Addition over optional milli-unit metrics, with the same identity
/// treatment of absence as `opt_add_u64`.
pub fn opt_add_milli(a: Option<i64>, b: Option<i64>) -> (r: Option<i64>)
    ensures
        r == opt_add_milli_spec(a, b),
{
    match (a, b) {
        (Some(x), Some(y)) => {
            if y >= 0 {
                if x <= i64::MAX - y {
                    Some(x + y)
                } else {
                    Some(i64::MAX)
                }
            } else {
                if x >= i64::MIN - y {
                    Some(x + y)
                } else {
                    Some(i64::MIN)
                }
            }
        },
        (Some(x), None) => Some(x),
        (None, Some(y)) => Some(y),
        (None, None) => None,
    }
}

/// A counter that rolled back between ticks (`begin > end`) derives to the
/// raw signed difference over the elapsed time: a negative value, never one
/// clamped to zero.
pub proof fn lemma_rollback_rate_is_signed(begin: u64, end: u64, elapsed_us: u64)
    requires
        begin > end,
        elapsed_us > 0,
        (begin - end) * PCT_MILLI_SCALE / (elapsed_us as int) <= i64::MAX,
        (begin - end) * PER_SEC_MILLI_SCALE / (elapsed_us as int) <= i64::MAX,
    ensures
        usec_pct_spec(Some(begin), Some(end), elapsed_us) == Some(
            (-((begin - end) * PCT_MILLI_SCALE / (elapsed_us as int))) as i64,
        ),
        count_per_sec_spec(Some(begin), Some(end), elapsed_us) == Some(
            (-((begin - end) * PER_SEC_MILLI_SCALE / (elapsed_us as int))) as i64,
        ),
        usec_pct_spec(Some(begin), Some(end), elapsed_us)->0 <= 0,
        count_per_sec_spec(Some(begin), Some(end), elapsed_us)->0 <= 0,
{
    assert((begin - end) * PCT_MILLI_SCALE >= 0) by (nonlinear_arith)
        requires
            begin > end,
    ;
    assert((begin - end) * PER_SEC_MILLI_SCALE >= 0) by (nonlinear_arith)
        requires
            begin > end,
    ;
    assert((begin - end) * PCT_MILLI_SCALE / (elapsed_us as int) >= 0) by (nonlinear_arith)
        requires
            (begin - end) * PCT_MILLI_SCALE >= 0,
            elapsed_us > 0,
    ;
    assert((begin - end) * PER_SEC_MILLI_SCALE / (elapsed_us as int) >= 0) by (nonlinear_arith)
        requires
            (begin - end) * PER_SEC_MILLI_SCALE >= 0,
            elapsed_us > 0,
    ;
}

/// With no elapsed time, every microsecond-percentage derivation is `None`,
/// whatever the operands hold.
pub proof fn lemma_zero_elapsed_pct_is_none(begin: Option<u64>, end: Option<u64>)
    ensures
        usec_pct_spec(begin, end, 0) is None,
{
}

/// The laws of optional addition: `None + None` stays `None`, a single
/// present operand is the result unchanged, and two present operands add.
/// The last law is stated for sums within the machine limit.
pub proof fn lemma_opt_add_laws(a: u64, b: u64, x: u64)
    requires
        a + b <= u64::MAX,
    ensures
        opt_add_u64_spec(None, None) is None,
        opt_add_u64_spec(None, Some(x)) == Some(x),
        opt_add_u64_spec(Some(x), None) == Some(x),
        opt_add_u64_spec(Some(a), Some(b)) == Some((a + b) as u64),
{
}

/// The same laws for signed milli-unit metrics.
pub proof fn lemma_opt_add_milli_laws(a: i64, b: i64, x: i64)
    requires
        i64::MIN <= a + b <= i64::MAX,
    ensures
        opt_add_milli_spec(None, None) is None,
        opt_add_milli_spec(None, Some(x)) == Some(x),
        opt_add_milli_spec(Some(x), None) == Some(x),
        opt_add_milli_spec(Some(a), Some(b)) == Some((a + b) as i64),
{
}

} // verus!
