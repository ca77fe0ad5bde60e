//! A holder's claim on the pool.

use vstd::prelude::*;

use crate::error::AmmError;

verus! {

/// The ownership units that one holder has in one pool. A position of zero
/// units is inert but remains a valid record.
#[derive(Clone, Copy, Debug, PartialEq, Eq, Structural)]
pub struct AmmPosition {
    /// The holder's units, in the unit space of the pool's total ownership.
    pub ownership: u64,
}

impl AmmPosition {
    /// A position of `ownership` units.
    pub fn new(ownership: u64) -> (position: AmmPosition)
        ensures
            position.ownership == ownership,
    {
        AmmPosition { ownership }
    }

    /// Adds `amount` units to the position, or fails with `ArithmeticError`
    /// and changes nothing where the sum exceeds 64 bits.
    pub fn mint_ownership(&mut self, amount: u64) -> (outcome: Result<(), AmmError>)
        ensures
            old(self).ownership + amount <= u64::MAX ==> outcome == Ok::<(), AmmError>(())
                && final(self).ownership == old(self).ownership + amount,
            old(self).ownership + amount > u64::MAX ==> outcome == Err::<(), AmmError>(AmmError::ArithmeticError)
                && *final(self) == *old(self),
    {
        match self.ownership.checked_add(amount) {
            Some(v) => {
                self.ownership = v;
                Ok(())
            },
            None => Err(AmmError::ArithmeticError),
        }
    }

    /// Takes `amount` units from the position, or fails with
    /// `ArithmeticError` and changes nothing where it holds fewer.
    pub fn burn_ownership(&mut self, amount: u64) -> (outcome: Result<(), AmmError>)
        ensures
            amount <= old(self).ownership ==> outcome == Ok::<(), AmmError>(())
                && final(self).ownership == old(self).ownership - amount,
            amount > old(self).ownership ==> outcome == Err::<(), AmmError>(AmmError::ArithmeticError)
                && *final(self) == *old(self),
    {
        match self.ownership.checked_sub(amount) {
            Some(v) => {
                self.ownership = v;
                Ok(())
            },
            None => Err(AmmError::ArithmeticError),
        }
    }
}

/// The ownership units that the given positions hold together.
pub open spec fn ownership_sum(positions: Seq<AmmPosition>) -> int
    decreases positions.len(),
{
    if positions.len() == 0 {
        0
    } else {
        ownership_sum(positions.drop_last()) + positions.last().ownership
    }
}

/// Replacing one position changes the sum by the difference between the
/// new position's units and the old one's.
pub proof fn lemma_ownership_sum_update(positions: Seq<AmmPosition>, holder: int, replacement: AmmPosition)
    requires
        0 <= holder < positions.len(),
    ensures
        ownership_sum(positions.update(holder, replacement)) == ownership_sum(positions)
            - positions[holder].ownership + replacement.ownership,
    decreases positions.len(),
{
    let updated = positions.update(holder, replacement);
    if holder == positions.len() - 1 {
        assert(updated.drop_last() =~= positions.drop_last());
    } else {
        assert(updated.drop_last() =~= positions.drop_last().update(holder, replacement));
        lemma_ownership_sum_update(positions.drop_last(), holder, replacement);
    }
}

/// A sum of ownership units is never negative.
pub proof fn lemma_ownership_sum_nonnegative(positions: Seq<AmmPosition>)
    ensures
        0 <= ownership_sum(positions),
    decreases positions.len(),
{
    if positions.len() > 0 {
        lemma_ownership_sum_nonnegative(positions.drop_last());
    }
}

/// No position holds more than all positions together.
pub proof fn lemma_ownership_within_sum(positions: Seq<AmmPosition>, holder: int)
    requires
        0 <= holder < positions.len(),
    ensures
        positions[holder].ownership <= ownership_sum(positions),
    decreases positions.len(),
{
    lemma_ownership_sum_nonnegative(positions.drop_last());
    if holder < positions.len() - 1 {
        lemma_ownership_within_sum(positions.drop_last(), holder);
        assert(positions.drop_last()[holder] == positions[holder]);
    }
}

} // verus!
