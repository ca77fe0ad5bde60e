//! Withdrawing liquidity: a holder gives up part of a position and
//! receives the matching part of both reserves.
//!
//! The accounting happens here, in one step that either applies as a whole
//! or not at all. What it returns are the amounts that the token custodian
//! is then asked to retire and to transfer.

use vstd::prelude::*;

use crate::address::Address;
use crate::error::AmmError;
use crate::ledger::Amm;
use crate::math::burn_defined;
use crate::math::burn_of;
use crate::math::lemma_burn_within_stake;
use crate::math::lemma_full_withdrawal;
use crate::math::lemma_payout_within_reserve;
use crate::math::ownership_burn;
use crate::math::payout_defined;
use crate::math::payout_of;
use crate::math::proportional_payout;
use crate::math::BPS_SCALE;
use crate::oracle::price_of;
use crate::position::lemma_ownership_sum_update;
use crate::position::lemma_ownership_within_sum;
use crate::position::ownership_sum;
use crate::position::AmmPosition;

verus! {

/// The amounts that a withdrawal retires and pays out.
#[derive(Clone, Copy, Debug, PartialEq, Eq, Structural)]
pub struct Withdrawal {
    /// The ownership units taken from the position and from the pool.
    pub burn_amount: u64,
    /// The amount paid out of the base reserve.
    pub base_out: u64,
    /// The amount paid out of the quote reserve.
    pub quote_out: u64,
}

/// What the caller of a withdrawal must supply: a position that holds
/// something, and a share of it between one basis point and the whole.
pub open spec fn request_valid(position: AmmPosition, withdraw_bps: u64) -> bool {
    &&& position.ownership > 0
    &&& 0 < withdraw_bps <= BPS_SCALE
}

/// The amounts of a withdrawal of `withdraw_bps` basis points of
/// `position` from `amm`.
pub open spec fn withdrawal_of(amm: Amm, position: AmmPosition, withdraw_bps: u64) -> Withdrawal {
    Withdrawal {
        burn_amount: burn_of(position.ownership, withdraw_bps) as u64,
        base_out: payout_of(amm.base_amount, position.ownership, withdraw_bps, amm.total_ownership) as u64,
        quote_out: payout_of(amm.quote_amount, position.ownership, withdraw_bps, amm.total_ownership) as u64,
    }
}

/// Whether every checked step of the withdrawal has a result: the oracle
/// can be advanced, both payouts can be computed, and neither the
/// position, the outstanding ownership nor a reserve would go below zero.
pub open spec fn accounts_suffice(amm: Amm, position: AmmPosition, withdraw_bps: u64, current_marker: u64) -> bool {
    &&& amm.can_update_twap(current_marker)
    &&& payout_defined(amm.base_amount, position.ownership, withdraw_bps, amm.total_ownership)
    &&& payout_defined(amm.quote_amount, position.ownership, withdraw_bps, amm.total_ownership)
    &&& burn_defined(position.ownership, withdraw_bps)
    &&& burn_of(position.ownership, withdraw_bps) <= position.ownership
    &&& burn_of(position.ownership, withdraw_bps) <= amm.total_ownership
    &&& payout_of(amm.base_amount, position.ownership, withdraw_bps, amm.total_ownership) <= amm.base_amount
    &&& payout_of(amm.quote_amount, position.ownership, withdraw_bps, amm.total_ownership) <= amm.quote_amount
}

/// The pool after the withdrawal: the oracle advanced at the reserves from
/// before, then ownership and reserves reduced by the withdrawal's amounts.
pub open spec fn amm_after(amm: Amm, position: AmmPosition, withdraw_bps: u64, current_marker: u64) -> Amm {
    let amounts = withdrawal_of(amm, position, withdraw_bps);
    amm.twap_updated(current_marker).with_total_ownership(amm.total_ownership - amounts.burn_amount).with_reserves(
        amm.base_amount - amounts.base_out,
        amm.quote_amount - amounts.quote_out,
    )
}

/// The position after the withdrawal.
pub open spec fn position_after(position: AmmPosition, withdraw_bps: u64) -> AmmPosition {
    AmmPosition { ownership: (position.ownership - burn_of(position.ownership, withdraw_bps)) as u64 }
}

/// Withdraws `withdraw_bps` basis points of `position` from `amm` at the
/// clock value `current_marker`.
///
/// In order: the oracle is advanced at the reserves as they stand; the two
/// payouts are computed, rounded down; the units to retire are computed,
/// rounded up; the units leave the position and the pool; the payouts leave
/// the reserves. The result holds the amounts for the custodian.
///
/// Fails with `PreconditionViolation` where the position is empty or
/// `withdraw_bps` is zero or above [`BPS_SCALE`], and with
/// `ArithmeticError` where a checked step has no result. A call that
/// fails changes neither the pool nor the position.
pub fn handler(amm: &mut Amm, position: &mut AmmPosition, withdraw_bps: u64, current_marker: u64) -> (outcome: Result<
    Withdrawal,
    AmmError,
>)
    ensures
        request_valid(*old(position), withdraw_bps) && accounts_suffice(
            *old(amm),
            *old(position),
            withdraw_bps,
            current_marker,
        ) ==> outcome == Ok::<Withdrawal, AmmError>(withdrawal_of(*old(amm), *old(position), withdraw_bps))
            && *final(amm) == amm_after(*old(amm), *old(position), withdraw_bps, current_marker)
            && *final(position) == position_after(*old(position), withdraw_bps),
        !request_valid(*old(position), withdraw_bps) ==> outcome == Err::<Withdrawal, AmmError>(
            AmmError::PreconditionViolation,
        ),
        request_valid(*old(position), withdraw_bps) && !accounts_suffice(
            *old(amm),
            *old(position),
            withdraw_bps,
            current_marker,
        ) ==> outcome == Err::<Withdrawal, AmmError>(AmmError::ArithmeticError),
        outcome is Err ==> *final(amm) == *old(amm) && *final(position) == *old(position),
        outcome matches Ok(amounts) ==> {
            &&& amounts.base_out <= old(amm).base_amount
            &&& amounts.quote_out <= old(amm).quote_amount
            &&& amounts.burn_amount <= old(position).ownership
            &&& amounts.burn_amount <= old(amm).total_ownership
            &&& final(amm).base_amount == old(amm).base_amount - amounts.base_out
            &&& final(amm).quote_amount == old(amm).quote_amount - amounts.quote_out
            &&& final(amm).total_ownership == old(amm).total_ownership - amounts.burn_amount
            &&& final(position).ownership == old(position).ownership - amounts.burn_amount
            &&& final(amm).twap_state.last_update_marker == current_marker
            &&& final(amm).twap_state.price_accumulator == old(amm).twap_state.price_accumulator + (current_marker
                - old(amm).twap_state.last_update_marker) * price_of(old(amm).base_amount, old(amm).quote_amount)
        },
{
    if position.ownership == 0 || withdraw_bps == 0 || withdraw_bps > BPS_SCALE {
        return Err(AmmError::PreconditionViolation);
    }
    let mut ledger: Amm = *amm;
    let mut claim: AmmPosition = *position;
    ledger.update_twap(current_marker)?;
    let base_out: u64 = proportional_payout(ledger.base_amount, claim.ownership, withdraw_bps, ledger.total_ownership)?;
    let quote_out: u64 = proportional_payout(
        ledger.quote_amount,
        claim.ownership,
        withdraw_bps,
        ledger.total_ownership,
    )?;
    let burn_amount: u64 = ownership_burn(claim.ownership, withdraw_bps)?;
    claim.burn_ownership(burn_amount)?;
    ledger.burn_ownership(burn_amount)?;
    ledger.debit_reserves(base_out, quote_out)?;
    *amm = ledger;
    *position = claim;
    Ok(Withdrawal { burn_amount, base_out, quote_out })
}

/// A request to the token custodian.
#[derive(Clone, Copy, Debug, PartialEq, Eq)]
pub enum CustodyRequest {
    /// Retire `amount` ownership tokens from the holder's account, on the
    /// holder's authority.
    Retire { amount: u64 },
    /// Transfer `amount` from the pool's vault to the holder, on the pool's
    /// own authority.
    Transfer { amount: u64, from_vault: Address },
}

/// The requests that follow a withdrawal, in the order in which they are
/// made: retire the units, pay out the base amount, pay out the quote
/// amount.
pub open spec fn requests_of(amm: Amm, amounts: Withdrawal) -> Seq<CustodyRequest> {
    seq![
        CustodyRequest::Retire { amount: amounts.burn_amount },
        CustodyRequest::Transfer { amount: amounts.base_out, from_vault: amm.vault_base },
        CustodyRequest::Transfer { amount: amounts.quote_out, from_vault: amm.vault_quote },
    ]
}

/// The requests to make of the custodian once `handler` has returned
/// `amounts` for `amm`. They are made only after the accounting is final,
/// and the transfers are authorised with `amm.vault_authority()`.
pub fn custody_requests(amm: &Amm, amounts: &Withdrawal) -> (requests: Vec<CustodyRequest>)
    ensures
        requests@ == requests_of(*amm, *amounts),
{
    let mut requests: Vec<CustodyRequest> = Vec::with_capacity(3);
    requests.push(CustodyRequest::Retire { amount: amounts.burn_amount });
    requests.push(CustodyRequest::Transfer { amount: amounts.base_out, from_vault: amm.vault_base });
    requests.push(CustodyRequest::Transfer { amount: amounts.quote_out, from_vault: amm.vault_quote });
    assert(requests@ =~= requests_of(*amm, *amounts));
    requests
}

/// The pool and the position as they stood before an operation began.
#[derive(Clone, Copy, Debug, PartialEq, Eq)]
pub struct Checkpoint {
    pub amm: Amm,
    pub position: AmmPosition,
}

impl Checkpoint {
    /// Records the pool and the position before an operation changes them.
    pub fn take(amm: &Amm, position: &AmmPosition) -> (checkpoint: Checkpoint)
        ensures
            checkpoint == (Checkpoint { amm: *amm, position: *position }),
    {
        Checkpoint { amm: *amm, position: *position }
    }

    /// Closes an operation on the custodian's answer. Where every request
    /// was accepted the accounting stands. Where one was refused the call
    /// fails with `CustodyRequestFailed`, and the pool and the position
    /// are again what they were when the checkpoint was taken.
    pub fn settle(&self, amm: &mut Amm, position: &mut AmmPosition, custody_accepted: bool) -> (outcome: Result<
        (),
        AmmError,
    >)
        ensures
            custody_accepted ==> outcome == Ok::<(), AmmError>(()) && *final(amm) == *old(amm) && *final(position)
                == *old(position),
            !custody_accepted ==> outcome == Err::<(), AmmError>(AmmError::CustodyRequestFailed) && *final(amm)
                == self.amm && *final(position) == self.position,
    {
        if custody_accepted {
            Ok(())
        } else {
            *amm = self.amm;
            *position = self.position;
            Err(AmmError::CustodyRequestFailed)
        }
    }
}

/// Where the position is part of the outstanding ownership, a valid request
/// cannot run short: the units retired are within the position and within
/// the pool, and each payout is within its reserve. Such a withdrawal can
/// fail only on the oracle or on a product beyond 128 bits.
pub proof fn lemma_covered_request_suffices(amm: Amm, position: AmmPosition, withdraw_bps: u64, current_marker: u64)
    requires
        request_valid(position, withdraw_bps),
        position.ownership <= amm.total_ownership,
    ensures
        1 <= burn_of(position.ownership, withdraw_bps) <= position.ownership,
        payout_of(amm.base_amount, position.ownership, withdraw_bps, amm.total_ownership) <= amm.base_amount,
        payout_of(amm.quote_amount, position.ownership, withdraw_bps, amm.total_ownership) <= amm.quote_amount,
        accounts_suffice(amm, position, withdraw_bps, current_marker) <==> {
            &&& amm.can_update_twap(current_marker)
            &&& amm.base_amount * position.ownership * withdraw_bps <= u128::MAX
            &&& amm.quote_amount * position.ownership * withdraw_bps <= u128::MAX
        },
{
    lemma_burn_within_stake(position.ownership, withdraw_bps);
    lemma_payout_within_reserve(amm.base_amount, position.ownership, withdraw_bps, amm.total_ownership);
    lemma_payout_within_reserve(amm.quote_amount, position.ownership, withdraw_bps, amm.total_ownership);
}

/// The sole holder who withdraws the whole position receives both reserves
/// entire and retires every unit: the pool is left with nothing held and
/// nothing outstanding.
pub proof fn lemma_sole_holder_withdraws_all(amm: Amm, position: AmmPosition, current_marker: u64)
    requires
        position.ownership > 0,
        position.ownership == amm.total_ownership,
    ensures
        withdrawal_of(amm, position, BPS_SCALE) == (Withdrawal {
            burn_amount: position.ownership,
            base_out: amm.base_amount,
            quote_out: amm.quote_amount,
        }),
        amm_after(amm, position, BPS_SCALE, current_marker).total_ownership == 0,
        amm_after(amm, position, BPS_SCALE, current_marker).base_amount == 0,
        amm_after(amm, position, BPS_SCALE, current_marker).quote_amount == 0,
        amm_after(amm, position, BPS_SCALE, current_marker).reserves_backed(),
        position_after(position, BPS_SCALE).ownership == 0,
{
    lemma_full_withdrawal(amm.base_amount, position.ownership);
    lemma_full_withdrawal(amm.quote_amount, position.ownership);
}

/// A withdrawal keeps the books balanced: where the outstanding ownership
/// was the sum over all positions before, it is the sum over all positions
/// after, the withdrawing holder's position replaced by what is left of it.
pub proof fn lemma_withdrawal_keeps_ownership_balanced(
    amm: Amm,
    positions: Seq<AmmPosition>,
    holder: int,
    withdraw_bps: u64,
    current_marker: u64,
)
    requires
        0 <= holder < positions.len(),
        ownership_sum(positions) == amm.total_ownership,
        request_valid(positions[holder], withdraw_bps),
    ensures
        ownership_sum(positions.update(holder, position_after(positions[holder], withdraw_bps))) == amm_after(
            amm,
            positions[holder],
            withdraw_bps,
            current_marker,
        ).total_ownership,
{
    let position = positions[holder];
    lemma_ownership_within_sum(positions, holder);
    lemma_covered_request_suffices(amm, position, withdraw_bps, current_marker);
    lemma_ownership_sum_update(positions, holder, position_after(position, withdraw_bps));
}

} // verus!
