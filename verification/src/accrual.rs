//! Time-proportional reward and interest accrual.
//!
//! Accrual is simple interest re-based at every checkpoint reset: a claim or
//! a principal change folds the accrued amount into a balance and resets the
//! checkpoint to the current time, so later accrual starts afresh from the
//! (possibly changed) principal. Nothing compounds.

use vstd::prelude::*;
use vstd::arithmetic::div_mod::lemma_div_is_ordered;
use vstd::arithmetic::div_mod::lemma_div_is_ordered_by_denominator;
use vstd::arithmetic::div_mod::lemma_div_multiples_vanish;
use vstd::arithmetic::div_mod::lemma_fundamental_div_mod;
use vstd::arithmetic::mul::lemma_mul_inequality;
use vstd::arithmetic::mul::lemma_mul_upper_bound;

use crate::params::RATE_DENOM;
use crate::params::SECONDS_PER_YEAR;

verus! {

/// `x`, clamped to what a `u64` can hold.
pub open spec fn clamp_u64(x: int) -> u64 {
    if x > u64::MAX {
        u64::MAX as u64
    } else if x < 0 {
        0
    } else {
        x as u64
    }
}

/// The exact accrued amount, as an unbounded integer:
/// `floor(principal * rate * elapsed / (RATE_DENOM * SECONDS_PER_YEAR))`,
/// where `elapsed` is `now - checkpoint`, clamped to zero. With `rate` in
/// hundredths this is exactly `floor(principal * annual_rate * elapsed /
/// SECONDS_PER_YEAR)`. Zero whenever the checkpoint is absent or not in the
/// past.
pub open spec fn spec_accrue(principal: u64, checkpoint: Option<u64>, rate: u64, now: u64) -> nat {
    match checkpoint {
        Option::Some(start) => {
            if now <= start {
                0
            } else {
                (principal * rate * (now - start)) as nat / ((RATE_DENOM * SECONDS_PER_YEAR) as nat)
            }
        },
        Option::None => 0,
    }
}

/// Reward or interest accrued on `principal` at annual rate
/// `rate / RATE_DENOM` since `checkpoint`, evaluated at time `now` (both in
/// seconds). Returns zero when no checkpoint is set or when `now` is not
/// later than the checkpoint (a checkpoint mistakenly in the future never
/// underflows). The exact quotient is returned whenever it fits in a `u64`;
/// larger results clamp to `u64::MAX`.
pub fn accrue(principal: u64, checkpoint: Option<u64>, rate: u64, now: u64) -> (reward: u64)
    ensures
        reward == clamp_u64(spec_accrue(principal, checkpoint, rate, now) as int),
{
    match checkpoint {
        Option::Some(start) => {
            if now <= start {
                0
            } else {
                let elapsed: u64 = now - start;
                proof {
                    lemma_mul_upper_bound(
                        principal as int,
                        u64::MAX as int,
                        rate as int,
                        u64::MAX as int,
                    );
                }
                let pr: u128 = (principal as u128) * (rate as u128);
                proof {
                    assert((RATE_DENOM as u128) * (SECONDS_PER_YEAR as u128) == 3_153_600_000u128)
                        by (nonlinear_arith);
                }
                let divisor: u128 = (RATE_DENOM as u128) * (SECONDS_PER_YEAR as u128);
                if pr > u128::MAX / (elapsed as u128) {
                    proof {
                        lemma_product_exceeds_u128(pr as int, elapsed as int);
                        lemma_huge_quotient(
                            pr * elapsed,
                            principal * rate * elapsed,
                            divisor as int,
                        );
                    }
                    u64::MAX
                } else {
                    proof {
                        lemma_product_fits_u128(pr as int, elapsed as int);
                    }
                    let product: u128 = pr * (elapsed as u128);
                    let quotient: u128 = product / divisor;
                    if quotient > (u64::MAX as u128) {
                        u64::MAX
                    } else {
                        quotient as u64
                    }
                }
            }
        },
        Option::None => 0,
    }
}

/// If `pr` is at most `u128::MAX / elapsed`, then `pr * elapsed` fits in a
/// `u128`.
proof fn lemma_product_fits_u128(pr: int, elapsed: int)
    requires
        0 <= pr,
        1 <= elapsed,
        pr <= (u128::MAX as int) / elapsed,
    ensures
        pr * elapsed <= u128::MAX,
{
    let q = (u128::MAX as int) / elapsed;
    lemma_fundamental_div_mod(u128::MAX as int, elapsed);
    lemma_mul_inequality(pr, q, elapsed);
    assert(q * elapsed == elapsed * q) by (nonlinear_arith);
}

/// If `pr` exceeds `u128::MAX / elapsed`, then `pr * elapsed` exceeds
/// `u128::MAX`.
proof fn lemma_product_exceeds_u128(pr: int, elapsed: int)
    requires
        0 <= pr,
        1 <= elapsed,
        pr > (u128::MAX as int) / elapsed,
    ensures
        pr * elapsed > u128::MAX,
{
    let q = (u128::MAX as int) / elapsed;
    lemma_fundamental_div_mod(u128::MAX as int, elapsed);
    assert((q + 1) * elapsed == q * elapsed + elapsed) by (nonlinear_arith);
    assert(q * elapsed + elapsed > u128::MAX);
    lemma_mul_inequality(q + 1, pr, elapsed);
}

/// A product of at least `2^128`, divided by a divisor of at most `2^32`,
/// still exceeds `u64::MAX`.
proof fn lemma_huge_quotient(product: int, same: int, divisor: int)
    requires
        product == same,
        product > u128::MAX,
        1 <= divisor <= 0x1_0000_0000,
    ensures
        same / divisor > u64::MAX,
{
    let big: int = u128::MAX as int + 1;
    let small: int = 0x1_0000_0000;
    let wide_quotient: int = 0x1_0000_0000_0000_0000_0000_0000;
    lemma_div_is_ordered(big, product, divisor);
    lemma_div_is_ordered_by_denominator(big, divisor, small);
    lemma_div_multiples_vanish(wide_quotient, small);
    assert(small * wide_quotient == big);
}

/// Accrual never decreases as time advances: for the same principal,
/// checkpoint, and rate, a later `now` accrues at least as much.
pub proof fn lemma_accrue_monotonic(
    principal: u64,
    checkpoint: Option<u64>,
    rate: u64,
    earlier: u64,
    later: u64,
)
    requires
        earlier <= later,
    ensures
        spec_accrue(principal, checkpoint, rate, earlier) <= spec_accrue(
            principal,
            checkpoint,
            rate,
            later,
        ),
{
    match checkpoint {
        Option::Some(start) => {
            if earlier <= start {
            } else {
                let e1 = earlier - start;
                let e2 = later - start;
                assert(principal * rate * e1 <= principal * rate * e2) by (nonlinear_arith)
                    requires
                        0 <= principal,
                        0 <= rate,
                        0 <= e1 <= e2,
                ;
                lemma_div_is_ordered(
                    principal * rate * e1,
                    principal * rate * e2,
                    (RATE_DENOM * SECONDS_PER_YEAR) as int,
                );
            }
        },
        Option::None => {},
    }
}

} // verus!
