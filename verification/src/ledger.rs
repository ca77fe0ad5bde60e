//! The pool's persistent record: its reserves, the outstanding ownership
//! and the price oracle, with the checked operations that change them.

use vstd::prelude::*;

use crate::address::Address;
use crate::error::AmmError;
use crate::oracle::TwapOracle;

verus! {

/// The credential under which a pool signs for its own vaults. It is made
/// of the pool's identity alone, so it is valid for that pool and no other.
#[derive(Clone, Copy, Debug, PartialEq, Eq)]
pub struct VaultAuthority {
    pub base_mint: Address,
    pub quote_mint: Address,
    pub bump: u8,
}

/// A pool of two assets.
#[derive(Clone, Copy, Debug, PartialEq, Eq)]
pub struct Amm {
    /// The derivation nonce of the pool's signing credential.
    pub bump: u8,
    /// The base asset.
    pub base_mint: Address,
    /// The quote asset.
    pub quote_mint: Address,
    /// The custody account that holds the base reserve.
    pub vault_base: Address,
    /// The custody account that holds the quote reserve.
    pub vault_quote: Address,
    /// The reserve of the base asset.
    pub base_amount: u64,
    /// The reserve of the quote asset.
    pub quote_amount: u64,
    /// The ownership units outstanding over all positions.
    pub total_ownership: u64,
    /// The price oracle.
    pub twap_state: TwapOracle,
}

impl Amm {
    /// Whether every reserve is claimed: a pool without outstanding
    /// ownership holds nothing.
    pub open spec fn reserves_backed(self) -> bool {
        self.total_ownership == 0 ==> self.base_amount == 0 && self.quote_amount == 0
    }

    /// This pool with the given reserves and everything else unchanged.
    pub open spec fn with_reserves(self, base_amount: int, quote_amount: int) -> Amm {
        Amm { base_amount: base_amount as u64, quote_amount: quote_amount as u64, ..self }
    }

    /// This pool with the given outstanding ownership and everything else
    /// unchanged.
    pub open spec fn with_total_ownership(self, total_ownership: int) -> Amm {
        Amm { total_ownership: total_ownership as u64, ..self }
    }

    /// This pool with the given oracle and everything else unchanged.
    pub open spec fn with_oracle(self, twap_state: TwapOracle) -> Amm {
        Amm { twap_state, ..self }
    }

    /// An empty pool for the given pair, with its oracle started at
    /// `current_marker`.
    pub fn new(
        bump: u8,
        base_mint: Address,
        quote_mint: Address,
        vault_base: Address,
        vault_quote: Address,
        current_marker: u64,
    ) -> (amm: Amm)
        ensures
            amm == (Amm {
                bump,
                base_mint,
                quote_mint,
                vault_base,
                vault_quote,
                base_amount: 0,
                quote_amount: 0,
                total_ownership: 0,
                twap_state: TwapOracle { last_update_marker: current_marker, price_accumulator: 0 },
            }),
            amm.reserves_backed(),
    {
        Amm {
            bump,
            base_mint,
            quote_mint,
            vault_base,
            vault_quote,
            base_amount: 0,
            quote_amount: 0,
            total_ownership: 0,
            twap_state: TwapOracle::new(current_marker),
        }
    }

    /// The credential with which this pool authorises debits of its vaults.
    pub fn vault_authority(&self) -> (authority: VaultAuthority)
        ensures
            authority == (VaultAuthority { base_mint: self.base_mint, quote_mint: self.quote_mint, bump: self.bump }),
    {
        VaultAuthority { base_mint: self.base_mint, quote_mint: self.quote_mint, bump: self.bump }
    }

    /// Takes the two amounts out of the reserves. Fails with
    /// `ArithmeticError`, changing nothing, where either reserve is smaller
    /// than its amount.
    pub fn debit_reserves(&mut self, base_delta: u64, quote_delta: u64) -> (outcome: Result<(), AmmError>)
        ensures
            base_delta <= old(self).base_amount && quote_delta <= old(self).quote_amount ==> outcome == Ok::<
                (),
                AmmError,
            >(()) && *final(self) == old(self).with_reserves(
                old(self).base_amount - base_delta,
                old(self).quote_amount - quote_delta,
            ),
            base_delta > old(self).base_amount || quote_delta > old(self).quote_amount ==> outcome == Err::<
                (),
                AmmError,
            >(AmmError::ArithmeticError) && *final(self) == *old(self),
    {
        let base_left: u64 = match self.base_amount.checked_sub(base_delta) {
            Some(v) => v,
            None => { return Err(AmmError::ArithmeticError); },
        };
        let quote_left: u64 = match self.quote_amount.checked_sub(quote_delta) {
            Some(v) => v,
            None => { return Err(AmmError::ArithmeticError); },
        };
        self.base_amount = base_left;
        self.quote_amount = quote_left;
        Ok(())
    }

    /// Puts the two amounts into the reserves. Fails with
    /// `ArithmeticError`, changing nothing, where either reserve would
    /// exceed 64 bits.
    pub fn credit_reserves(&mut self, base_delta: u64, quote_delta: u64) -> (outcome: Result<(), AmmError>)
        ensures
            old(self).base_amount + base_delta <= u64::MAX && old(self).quote_amount + quote_delta <= u64::MAX
                ==> outcome == Ok::<(), AmmError>(()) && *final(self) == old(self).with_reserves(
                old(self).base_amount + base_delta,
                old(self).quote_amount + quote_delta,
            ),
            old(self).base_amount + base_delta > u64::MAX || old(self).quote_amount + quote_delta > u64::MAX
                ==> outcome == Err::<(), AmmError>(AmmError::ArithmeticError) && *final(self) == *old(self),
    {
        let base_held: u64 = match self.base_amount.checked_add(base_delta) {
            Some(v) => v,
            None => { return Err(AmmError::ArithmeticError); },
        };
        let quote_held: u64 = match self.quote_amount.checked_add(quote_delta) {
            Some(v) => v,
            None => { return Err(AmmError::ArithmeticError); },
        };
        self.base_amount = base_held;
        self.quote_amount = quote_held;
        Ok(())
    }

    /// Retires `amount` units of outstanding ownership. Fails with
    /// `ArithmeticError`, changing nothing, where fewer are outstanding.
    pub fn burn_ownership(&mut self, amount: u64) -> (outcome: Result<(), AmmError>)
        ensures
            amount <= old(self).total_ownership ==> outcome == Ok::<(), AmmError>(())
                && *final(self) == old(self).with_total_ownership(old(self).total_ownership - amount),
            amount > old(self).total_ownership ==> outcome == Err::<(), AmmError>(AmmError::ArithmeticError)
                && *final(self) == *old(self),
    {
        match self.total_ownership.checked_sub(amount) {
            Some(v) => {
                self.total_ownership = v;
                Ok(())
            },
            None => Err(AmmError::ArithmeticError),
        }
    }

    /// Issues `amount` units of ownership. Fails with `ArithmeticError`,
    /// changing nothing, where the total would exceed 64 bits.
    pub fn mint_ownership(&mut self, amount: u64) -> (outcome: Result<(), AmmError>)
        ensures
            old(self).total_ownership + amount <= u64::MAX ==> outcome == Ok::<(), AmmError>(())
                && *final(self) == old(self).with_total_ownership(old(self).total_ownership + amount),
            old(self).total_ownership + amount > u64::MAX ==> outcome == Err::<(), AmmError>(
                AmmError::ArithmeticError,
            ) && *final(self) == *old(self),
    {
        match self.total_ownership.checked_add(amount) {
            Some(v) => {
                self.total_ownership = v;
                Ok(())
            },
            None => Err(AmmError::ArithmeticError),
        }
    }

    /// Whether the oracle can be advanced to `current_marker` at the
    /// pool's present reserves.
    pub open spec fn can_update_twap(self, current_marker: u64) -> bool {
        self.twap_state.can_advance(current_marker, self.base_amount, self.quote_amount)
    }

    /// This pool with its oracle advanced to `current_marker` at the
    /// present reserves.
    pub open spec fn twap_updated(self, current_marker: u64) -> Amm {
        self.with_oracle(self.twap_state.advanced(current_marker, self.base_amount, self.quote_amount))
    }

    /// Advances the oracle to `current_marker`, weighting the elapsed
    /// interval with the price that the reserves show now. Whatever is to
    /// change the reserves calls this first. Fails with `ArithmeticError`,
    /// changing nothing, where the clock went backwards or the accumulator
    /// would overflow.
    pub fn update_twap(&mut self, current_marker: u64) -> (outcome: Result<(), AmmError>)
        ensures
            old(self).can_update_twap(current_marker) ==> outcome == Ok::<(), AmmError>(()) && *final(self) == old(self).twap_updated(current_marker),
            !old(self).can_update_twap(current_marker) ==> outcome == Err::<(), AmmError>(
                AmmError::ArithmeticError,
            ) && *final(self) == *old(self),
            final(self).twap_state.last_update_marker >= old(self).twap_state.last_update_marker,
            final(self).twap_state.price_accumulator >= old(self).twap_state.price_accumulator,
    {
        let mut oracle: TwapOracle = self.twap_state;
        match oracle.advance(current_marker, self.base_amount, self.quote_amount) {
            Ok(()) => {
                self.twap_state = oracle;
                Ok(())
            },
            Err(e) => Err(e),
        }
    }
}

} // verus!
