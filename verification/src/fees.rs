//! Fee and split arithmetic: the helper incentive charged at creation and
//! the basis-point division of the principal on a disputed order.
//!
//! Everything here is pure integer arithmetic. The executable functions
//! compute in the widened 128-bit domain and narrow back, exactly pinning
//! the mathematical value their spec counterparts define.

use vstd::prelude::*;
use vstd::arithmetic::mul::{lemma_mul_inequality, lemma_mul_nonnegative, lemma_mul_upper_bound};
use vstd::arithmetic::div_mod::{
    lemma_div_is_ordered, lemma_div_multiples_vanish, lemma_div_pos_is_pos,
};

use crate::errors::ErrorCode;

verus! {

/// The helper incentive on a principal of `amount`:
/// `floor(amount * fee_percentage / 100)`.
pub open spec fn spec_fee(amount: u64, fee_percentage: u8) -> int {
    (amount * fee_percentage) / 100
}

/// The value locked in escrow at creation: principal plus helper fee.
pub open spec fn spec_total_escrow(amount: u64, fee_percentage: u8) -> int {
    amount + spec_fee(amount, fee_percentage)
}

/// The helper's share when a disputed principal of `total` is divided at
/// `bps` basis points: `floor(total * bps / 10000)`.
pub open spec fn spec_to_helper(total: u64, bps: u16) -> int {
    (total * bps) / 10000
}

/// The creator's share of a split: whatever the helper's share leaves,
/// so the rounding remainder always goes to the creator.
pub open spec fn spec_to_creator(total: u64, bps: u16) -> int {
    total - spec_to_helper(total, bps)
}

/// A scaled floor division `value * num / den` with `num <= den` never
/// exceeds `value` and never goes negative.
proof fn lemma_scaled_share_bounds(value: int, num: int, den: int)
    requires
        0 <= value,
        0 <= num <= den,
        0 < den,
    ensures
        0 <= (value * num) / den <= value,
{
    lemma_mul_nonnegative(value, num);
    lemma_div_pos_is_pos(value * num, den);
    lemma_mul_inequality(num, den, value);
    assert(num * value == value * num) by (nonlinear_arith);
    assert(den * value == value * den) by (nonlinear_arith);
    lemma_div_is_ordered(value * num, den * value, den);
    lemma_div_multiples_vanish(value, den);
}

/// Law: for every `fee_percentage <= 100` the fee is between zero and the
/// principal, and fee plus principal is exactly the escrow total locked at
/// creation.
pub proof fn lemma_fee_plus_amount_is_total(amount: u64, fee_percentage: u8)
    requires
        fee_percentage <= 100,
    ensures
        0 <= spec_fee(amount, fee_percentage) <= amount,
        spec_fee(amount, fee_percentage) + amount == spec_total_escrow(amount, fee_percentage),
{
    lemma_scaled_share_bounds(amount as int, fee_percentage as int, 100);
}

/// Law: for every `bps <= 10000` the helper share is between zero and the
/// total, and the two shares partition the total exactly.
pub proof fn lemma_split_is_exact(total: u64, bps: u16)
    requires
        bps <= 10000,
    ensures
        0 <= spec_to_helper(total, bps) <= total,
        spec_to_helper(total, bps) + spec_to_creator(total, bps) == total,
{
    lemma_scaled_share_bounds(total as int, bps as int, 10000);
}

/// FeeCalculator: the helper incentive, widened to 128 bits for the
/// multiply and narrowed back. Fails only when the narrowing cannot be
/// represented (impossible once `fee_percentage <= 100` is enforced).
pub fn fee(amount: u64, fee_percentage: u8) -> (r: Result<u64, ErrorCode>)
    ensures
        (if spec_fee(amount, fee_percentage) <= u64::MAX {
            r == Ok::<u64, ErrorCode>(spec_fee(amount, fee_percentage) as u64)
        } else {
            r == Err::<u64, ErrorCode>(ErrorCode::MathOverflow)
        }),
{
    proof {
        lemma_mul_upper_bound(amount as int, u64::MAX as int, fee_percentage as int, u8::MAX as int);
    }
    let wide: u128 = (amount as u128) * (fee_percentage as u128);
    let narrowed: u128 = wide / 100;
    if narrowed > u64::MAX as u128 {
        Err(ErrorCode::MathOverflow)
    } else {
        Ok(narrowed as u64)
    }
}

/// FeeCalculator: principal plus fee, the value the custodian is told to
/// lock at creation. Fails with `MathOverflow` when the sum does not fit.
pub fn total_escrow(amount: u64, fee_percentage: u8) -> (r: Result<u64, ErrorCode>)
    ensures
        (if spec_total_escrow(amount, fee_percentage) <= u64::MAX {
            r == Ok::<u64, ErrorCode>(spec_total_escrow(amount, fee_percentage) as u64)
        } else {
            r == Err::<u64, ErrorCode>(ErrorCode::MathOverflow)
        }),
{
    let f = match fee(amount, fee_percentage) {
        Ok(f) => f,
        Err(e) => {
            return Err(e);
        },
    };
    match amount.checked_add(f) {
        Some(total) => Ok(total),
        None => Err(ErrorCode::MathOverflow),
    }
}

/// Split arithmetic: the helper's share of a disputed principal, in basis
/// points. Rejects `bps > 10000` before touching the arithmetic.
pub fn to_helper(total: u64, bps: u16) -> (r: Result<u64, ErrorCode>)
    ensures
        (if bps <= 10000 {
            r == Ok::<u64, ErrorCode>(spec_to_helper(total, bps) as u64)
        } else {
            r == Err::<u64, ErrorCode>(ErrorCode::InvalidFee)
        }),
{
    if bps > 10000 {
        return Err(ErrorCode::InvalidFee);
    }
    proof {
        lemma_mul_upper_bound(total as int, u64::MAX as int, bps as int, u16::MAX as int);
        lemma_split_is_exact(total, bps);
    }
    let wide: u128 = (total as u128) * (bps as u128);
    Ok((wide / 10000) as u64)
}

/// Split arithmetic: the creator's share, the exact remainder of the
/// helper's share so that the two always sum to the total.
pub fn to_creator(total: u64, bps: u16) -> (r: Result<u64, ErrorCode>)
    ensures
        (if bps <= 10000 {
            r == Ok::<u64, ErrorCode>(spec_to_creator(total, bps) as u64)
        } else {
            r == Err::<u64, ErrorCode>(ErrorCode::InvalidFee)
        }),
{
    let h = match to_helper(total, bps) {
        Ok(h) => h,
        Err(e) => {
            return Err(e);
        },
    };
    proof {
        lemma_split_is_exact(total, bps);
    }
    Ok(total - h)
}

} // verus!
