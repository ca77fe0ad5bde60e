//! The time-weighted price accumulator.
//!
//! The accumulator grows, for every interval of the logical clock, by the
//! interval's length times the price observed over it. An operation that is
//! about to change the reserves advances the accumulator first, so the
//! interval that just ended is weighted with the price from before the
//! change.

use vstd::prelude::*;

use crate::error::AmmError;

verus! {

/// The fixed-point unit of a price: a price of one quote unit per base unit
/// is recorded as `PRICE_SCALE`.
pub const PRICE_SCALE: u128 = 1_000_000_000_000;

/// The price of the base asset in quote units at the given reserves, in
/// units of `1 / PRICE_SCALE`, rounded down. A pool without base reserve
/// shows no price, which counts as zero.
pub open spec fn price_of(base_amount: u64, quote_amount: u64) -> int {
    if base_amount == 0 {
        0
    } else {
        (quote_amount * PRICE_SCALE) / (base_amount as int)
    }
}

/// The price accumulator with the clock value up to which it is complete.
#[derive(Clone, Copy, Debug, PartialEq, Eq, Structural)]
pub struct TwapOracle {
    /// The clock value at which the accumulator was last advanced.
    pub last_update_marker: u64,
    /// The sum, over all past intervals, of length times observed price.
    pub price_accumulator: u128,
}

impl TwapOracle {
    /// What `advance` adds to the accumulator: the ticks elapsed up to
    /// `current_marker` times the price at the given reserves.
    pub open spec fn increment(self, current_marker: u64, base_amount: u64, quote_amount: u64) -> int {
        (current_marker - self.last_update_marker) * price_of(base_amount, quote_amount)
    }

    /// Whether the accumulator can be advanced to `current_marker`: the
    /// clock has not gone backwards and the new sum fits in 128 bits.
    pub open spec fn can_advance(self, current_marker: u64, base_amount: u64, quote_amount: u64) -> bool {
        &&& self.last_update_marker <= current_marker
        &&& self.price_accumulator + self.increment(current_marker, base_amount, quote_amount) <= u128::MAX
    }

    /// The oracle after an advance to `current_marker` at the given reserves.
    pub open spec fn advanced(self, current_marker: u64, base_amount: u64, quote_amount: u64) -> TwapOracle {
        TwapOracle {
            last_update_marker: current_marker,
            price_accumulator: (self.price_accumulator + self.increment(
                current_marker,
                base_amount,
                quote_amount,
            )) as u128,
        }
    }

    /// An oracle that starts at `marker` with nothing accumulated.
    pub fn new(marker: u64) -> (oracle: TwapOracle)
        ensures
            oracle == (TwapOracle { last_update_marker: marker, price_accumulator: 0 }),
    {
        TwapOracle { last_update_marker: marker, price_accumulator: 0 }
    }

    /// The price at the given reserves, as the accumulator weights it.
    pub fn observed_price(base_amount: u64, quote_amount: u64) -> (price: u128)
        ensures
            price == price_of(base_amount, quote_amount),
    {
        if base_amount == 0 {
            return 0;
        }
        assert(quote_amount * PRICE_SCALE <= u128::MAX) by (nonlinear_arith)
            requires
                quote_amount <= u64::MAX,
                PRICE_SCALE == 1_000_000_000_000,
        ;
        (quote_amount as u128) * PRICE_SCALE / (base_amount as u128)
    }

    /// Accounts for the interval from the last update to `current_marker`
    /// at the price that the given reserves show, and moves the marker.
    ///
    /// Fails with `ArithmeticError`, leaving the oracle as it was, where
    /// `current_marker` lies before the last update or the accumulator
    /// would overflow. When no tick has elapsed the accumulator keeps its
    /// value.
    pub fn advance(&mut self, current_marker: u64, base_amount: u64, quote_amount: u64) -> (outcome: Result<
        (),
        AmmError,
    >)
        ensures
            old(self).can_advance(current_marker, base_amount, quote_amount) ==> outcome == Ok::<(), AmmError>(())
                && *final(self) == old(self).advanced(current_marker, base_amount, quote_amount),
            !old(self).can_advance(current_marker, base_amount, quote_amount) ==> outcome == Err::<(), AmmError>(
                AmmError::ArithmeticError,
            ) && *final(self) == *old(self),
            final(self).last_update_marker >= old(self).last_update_marker,
            final(self).price_accumulator >= old(self).price_accumulator,
    {
        let elapsed: u64 = match current_marker.checked_sub(self.last_update_marker) {
            Some(v) => v,
            None => { return Err(AmmError::ArithmeticError); },
        };
        let price: u128 = Self::observed_price(base_amount, quote_amount);
        let weighted: u128 = match (elapsed as u128).checked_mul(price) {
            Some(v) => v,
            None => { return Err(AmmError::ArithmeticError); },
        };
        let accumulated: u128 = match self.price_accumulator.checked_add(weighted) {
            Some(v) => v,
            None => { return Err(AmmError::ArithmeticError); },
        };
        self.last_update_marker = current_marker;
        self.price_accumulator = accumulated;
        Ok(())
    }
}

} // verus!
