//! Proportional arithmetic in basis points, with the rounding that protects
//! the holders who stay in the pool.

use num_traits::ToPrimitive;
use vstd::arithmetic::div_mod::lemma_div_denominator;
use vstd::arithmetic::div_mod::lemma_fundamental_div_mod;
use vstd::arithmetic::div_mod::lemma_remainder;
use vstd::arithmetic::mul::lemma_mul_strictly_positive;
use vstd::prelude::*;

use crate::error::AmmError;

verus! {

/// The number of basis points in a whole.
pub const BPS_SCALE: u64 = 10000;

/// What a holder of `ownership` units out of `total_ownership` receives from
/// `reserve` when withdrawing `withdraw_bps` basis points of their stake:
/// the exact proportional share, rounded down.
pub open spec fn payout_of(reserve: u64, ownership: u64, withdraw_bps: u64, total_ownership: u64) -> int
    recommends
        total_ownership > 0,
{
    (reserve * ownership * withdraw_bps) / (BPS_SCALE * total_ownership)
}

/// The ownership units retired when withdrawing `withdraw_bps` basis points
/// of `ownership`: the exact fraction, rounded up.
pub open spec fn burn_of(ownership: u64, withdraw_bps: u64) -> int {
    (ownership * withdraw_bps + BPS_SCALE - 1) / (BPS_SCALE as int)
}

/// Whether the 128-bit evaluation of a payout has a result in 64 bits.
pub open spec fn payout_defined(reserve: u64, ownership: u64, withdraw_bps: u64, total_ownership: u64) -> bool {
    &&& total_ownership > 0
    &&& reserve * ownership * withdraw_bps <= u128::MAX
    &&& payout_of(reserve, ownership, withdraw_bps, total_ownership) <= u64::MAX
}

/// Whether the units to retire fit in 64 bits.
pub open spec fn burn_defined(ownership: u64, withdraw_bps: u64) -> bool {
    burn_of(ownership, withdraw_bps) <= u64::MAX
}

/// `num_traits::ToPrimitive::to_u64` on a `u128`: the same number where it
/// is at most `u64::MAX`, and nothing where it is larger.
#[verifier::external_body]
fn to_u64(value: u128) -> (narrowed: Option<u64>)
    ensures
        value <= u64::MAX ==> narrowed == Some(value as u64),
        value > u64::MAX ==> narrowed is None,
{
    value.to_u64()
}

/// Narrows a 128-bit intermediate back to 64 bits, failing where it does
/// not fit.
pub fn narrow(value: u128) -> (narrowed: Result<u64, AmmError>)
    ensures
        value <= u64::MAX ==> narrowed == Ok::<u64, AmmError>(value as u64),
        value > u64::MAX ==> narrowed == Err::<u64, AmmError>(AmmError::ArithmeticError),
{
    match to_u64(value) {
        Some(v) => Ok(v),
        None => Err(AmmError::ArithmeticError),
    }
}

/// The amount of `reserve` paid out to a holder of `ownership` units out of
/// `total_ownership` who withdraws `withdraw_bps` basis points of their
/// stake, rounded down so that any fraction stays in the pool.
///
/// The product is formed in 128 bits. The call fails with
/// `ArithmeticError` where that product overflows, where `total_ownership`
/// is zero, or where the quotient does not fit in 64 bits.
pub fn proportional_payout(reserve: u64, ownership: u64, withdraw_bps: u64, total_ownership: u64) -> (paid: Result<u64, AmmError>)
    ensures
        payout_defined(reserve, ownership, withdraw_bps, total_ownership) ==> paid == Ok::<u64, AmmError>(
            payout_of(reserve, ownership, withdraw_bps, total_ownership) as u64,
        ),
        !payout_defined(reserve, ownership, withdraw_bps, total_ownership) ==> paid == Err::<u64, AmmError>(
            AmmError::ArithmeticError,
        ),
        paid matches Ok(amount) ==> amount * (BPS_SCALE * total_ownership) <= reserve * ownership * withdraw_bps
            < (amount + 1) * (BPS_SCALE * total_ownership),
{
    assert(reserve * ownership <= u128::MAX) by (nonlinear_arith)
        requires
            reserve <= u64::MAX,
            ownership <= u64::MAX,
    ;
    let staked: u128 = (reserve as u128) * (ownership as u128);
    let scaled: u128 = match staked.checked_mul(withdraw_bps as u128) {
        Some(v) => v,
        None => { return Err(AmmError::ArithmeticError); },
    };
    if total_ownership == 0 {
        return Err(AmmError::ArithmeticError);
    }
    let per_whole: u128 = scaled / (BPS_SCALE as u128);
    let share: u128 = per_whole / (total_ownership as u128);
    proof {
        lemma_div_denominator(scaled as int, BPS_SCALE as int, total_ownership as int);
        lemma_payout_rounds_down(reserve, ownership, withdraw_bps, total_ownership);
    }
    narrow(share)
}

/// The ownership units retired when a holder of `ownership` units withdraws
/// `withdraw_bps` basis points of their stake, rounded up so that no
/// withdrawal retires less than it takes out.
///
/// The call fails with `ArithmeticError` where the result does not fit in
/// 64 bits, which takes a `withdraw_bps` above [`BPS_SCALE`].
pub fn ownership_burn(ownership: u64, withdraw_bps: u64) -> (burned: Result<u64, AmmError>)
    ensures
        burn_defined(ownership, withdraw_bps) ==> burned == Ok::<u64, AmmError>(burn_of(ownership, withdraw_bps) as u64),
        !burn_defined(ownership, withdraw_bps) ==> burned == Err::<u64, AmmError>(AmmError::ArithmeticError),
        burned matches Ok(units) ==> (units - 1) * BPS_SCALE < ownership * withdraw_bps <= units * BPS_SCALE,
{
    assert(ownership * withdraw_bps + BPS_SCALE - 1 <= u128::MAX) by (nonlinear_arith)
        requires
            ownership <= u64::MAX,
            withdraw_bps <= u64::MAX,
            BPS_SCALE == 10000,
    ;
    let scaled: u128 = (ownership as u128) * (withdraw_bps as u128);
    let padded: u128 = scaled + (BPS_SCALE as u128 - 1);
    let units: u128 = padded / (BPS_SCALE as u128);
    proof {
        lemma_burn_rounds_up(ownership, withdraw_bps);
    }
    narrow(units)
}

/// How a quotient rounded down sits against its numerator: `d` times the
/// quotient is at most `x`, and less than `d` below it.
pub proof fn lemma_floor_bounds(x: int, d: int)
    requires
        0 <= x,
        0 < d,
    ensures
        0 <= x / d,
        (x / d) * d <= x,
        x < (x / d) * d + d,
{
    lemma_fundamental_div_mod(x, d);
    lemma_remainder(x, d);
    assert(d * (x / d) == (x / d) * d) by (nonlinear_arith);
    assert(0 <= x / d) by (nonlinear_arith)
        requires
            x < (x / d) * d + d,
            0 < d,
            0 <= x,
    ;
}

/// A payout never exceeds the exact proportional share
/// `reserve * ownership * withdraw_bps / (BPS_SCALE * total_ownership)`,
/// and falls short of it by less than one unit.
pub proof fn lemma_payout_rounds_down(reserve: u64, ownership: u64, withdraw_bps: u64, total_ownership: u64)
    requires
        total_ownership > 0,
    ensures
        0 <= payout_of(reserve, ownership, withdraw_bps, total_ownership),
        payout_of(reserve, ownership, withdraw_bps, total_ownership) * (BPS_SCALE * total_ownership) <= reserve
            * ownership * withdraw_bps,
        reserve * ownership * withdraw_bps < (payout_of(reserve, ownership, withdraw_bps, total_ownership) + 1) * (
        BPS_SCALE * total_ownership),
{
    let x: int = reserve * ownership * withdraw_bps;
    let d: int = BPS_SCALE * total_ownership;
    lemma_mul_strictly_positive(BPS_SCALE as int, total_ownership as int);
    assert(0 <= x) by (nonlinear_arith)
        requires
            x == reserve * ownership * withdraw_bps,
    ;
    lemma_floor_bounds(x, d);
    assert((x / d + 1) * d == (x / d) * d + d) by (nonlinear_arith);
}

/// The units retired are never fewer than the exact fraction
/// `ownership * withdraw_bps / BPS_SCALE`, and exceed it by less than one
/// unit.
pub proof fn lemma_burn_rounds_up(ownership: u64, withdraw_bps: u64)
    ensures
        0 <= burn_of(ownership, withdraw_bps),
        burn_of(ownership, withdraw_bps) * BPS_SCALE >= ownership * withdraw_bps,
        (burn_of(ownership, withdraw_bps) - 1) * BPS_SCALE < ownership * withdraw_bps,
{
    let x: int = ownership * withdraw_bps + BPS_SCALE - 1;
    assert(0 <= ownership * withdraw_bps) by (nonlinear_arith);
    lemma_floor_bounds(x, BPS_SCALE as int);
    assert((x / (BPS_SCALE as int) - 1) * BPS_SCALE == (x / (BPS_SCALE as int)) * BPS_SCALE - BPS_SCALE)
        by (nonlinear_arith);
}

/// A withdrawal of at most the whole stake retires at most the stake, and
/// a withdrawal of anything from a stake that holds something retires at
/// least one unit.
pub proof fn lemma_burn_within_stake(ownership: u64, withdraw_bps: u64)
    requires
        withdraw_bps <= BPS_SCALE,
    ensures
        burn_of(ownership, withdraw_bps) <= ownership,
        ownership > 0 && withdraw_bps > 0 ==> burn_of(ownership, withdraw_bps) >= 1,
{
    lemma_burn_rounds_up(ownership, withdraw_bps);
    let burn: int = burn_of(ownership, withdraw_bps);
    assert(ownership * withdraw_bps <= ownership * BPS_SCALE) by (nonlinear_arith)
        requires
            withdraw_bps <= BPS_SCALE,
    ;
    assert(burn <= ownership) by (nonlinear_arith)
        requires
            (burn - 1) * BPS_SCALE < ownership * BPS_SCALE,
    ;
    if ownership > 0 && withdraw_bps > 0 {
        assert(ownership * withdraw_bps > 0) by (nonlinear_arith)
            requires
                ownership > 0,
                withdraw_bps > 0,
        ;
        assert(burn >= 1) by (nonlinear_arith)
            requires
                burn * BPS_SCALE >= ownership * withdraw_bps,
                ownership * withdraw_bps > 0,
        ;
    }
}

/// A holder whose stake is part of the outstanding ownership, withdrawing
/// at most the whole stake, is paid at most the reserve.
pub proof fn lemma_payout_within_reserve(reserve: u64, ownership: u64, withdraw_bps: u64, total_ownership: u64)
    requires
        total_ownership > 0,
        ownership <= total_ownership,
        withdraw_bps <= BPS_SCALE,
    ensures
        payout_of(reserve, ownership, withdraw_bps, total_ownership) <= reserve,
{
    lemma_payout_rounds_down(reserve, ownership, withdraw_bps, total_ownership);
    let paid: int = payout_of(reserve, ownership, withdraw_bps, total_ownership);
    let d: int = BPS_SCALE * total_ownership;
    assert(ownership * withdraw_bps <= d) by (nonlinear_arith)
        requires
            ownership <= total_ownership,
            withdraw_bps <= BPS_SCALE,
            d == BPS_SCALE * total_ownership,
    ;
    assert(reserve * ownership * withdraw_bps <= reserve * d) by (nonlinear_arith)
        requires
            ownership * withdraw_bps <= d,
    ;
    assert(paid <= reserve) by (nonlinear_arith)
        requires
            paid * d <= reserve * d,
            0 < d,
    ;
}

/// The sole holder who withdraws the whole stake is paid the whole
/// reserve and retires every unit.
pub proof fn lemma_full_withdrawal(reserve: u64, ownership: u64)
    requires
        ownership > 0,
    ensures
        payout_of(reserve, ownership, BPS_SCALE, ownership) == reserve,
        burn_of(ownership, BPS_SCALE) == ownership,
{
    lemma_payout_rounds_down(reserve, ownership, BPS_SCALE, ownership);
    lemma_burn_rounds_up(ownership, BPS_SCALE);
    let paid: int = payout_of(reserve, ownership, BPS_SCALE, ownership);
    let d: int = BPS_SCALE * ownership;
    assert(reserve * ownership * BPS_SCALE == reserve * d) by (nonlinear_arith)
        requires
            d == BPS_SCALE * ownership,
    ;
    assert(paid == reserve) by (nonlinear_arith)
        requires
            paid * d <= reserve * d,
            reserve * d < (paid + 1) * d,
            0 < d,
    ;
    let burn: int = burn_of(ownership, BPS_SCALE);
    assert(burn == ownership) by (nonlinear_arith)
        requires
            burn * BPS_SCALE >= ownership * BPS_SCALE,
            (burn - 1) * BPS_SCALE < ownership * BPS_SCALE,
    ;
}

/// No withdrawal takes out more per retired unit than the pool holds per
/// outstanding unit: the payout is to the retired units at most as the
/// reserve is to the outstanding ownership.
pub proof fn lemma_payout_per_unit_bounded(reserve: u64, ownership: u64, withdraw_bps: u64, total_ownership: u64)
    requires
        total_ownership > 0,
    ensures
        payout_of(reserve, ownership, withdraw_bps, total_ownership) * total_ownership <= reserve * burn_of(
            ownership,
            withdraw_bps,
        ),
{
    lemma_payout_rounds_down(reserve, ownership, withdraw_bps, total_ownership);
    lemma_burn_rounds_up(ownership, withdraw_bps);
    let paid: int = payout_of(reserve, ownership, withdraw_bps, total_ownership);
    let burn: int = burn_of(ownership, withdraw_bps);
    assert(reserve * ownership * withdraw_bps <= reserve * burn * BPS_SCALE) by (nonlinear_arith)
        requires
            burn * BPS_SCALE >= ownership * withdraw_bps,
    ;
    assert(paid * total_ownership <= reserve * burn) by (nonlinear_arith)
        requires
            paid * (BPS_SCALE * total_ownership) <= reserve * burn * BPS_SCALE,
            BPS_SCALE > 0,
    ;
}

} // verus!
