use amm::error::AmmError;
use amm::address::Address;
use amm::ledger::Amm;
use amm::math::{narrow, ownership_burn, proportional_payout, BPS_SCALE};
use amm::oracle::{TwapOracle, PRICE_SCALE};
use amm::position::AmmPosition;

#[test]
fn scale_is_ten_thousand() {
    assert_eq!(BPS_SCALE, 10_000);
}

#[test]
fn narrow_keeps_what_fits() {
    assert_eq!(narrow(0), Ok(0));
    assert_eq!(narrow(5), Ok(5));
    assert_eq!(narrow(u64::MAX as u128), Ok(u64::MAX));
}

#[test]
fn narrow_refuses_what_does_not_fit() {
    assert_eq!(narrow(u64::MAX as u128 + 1), Err(AmmError::ArithmeticError));
    assert_eq!(narrow(u128::MAX), Err(AmmError::ArithmeticError));
}

#[test]
fn payout_rounds_down() {
    assert_eq!(proportional_payout(1_000_000, 10_000, 5_000, 100_000), Ok(50_000));
    assert_eq!(proportional_payout(2_000_000, 10_000, 5_000, 100_000), Ok(100_000));
    // 10 * 1 * 9_999 / (10_000 * 1) = 9.999
    assert_eq!(proportional_payout(10, 1, 9_999, 1), Ok(9));
    // 7 * 3 * 3_333 / (10_000 * 9) = 0.77...
    assert_eq!(proportional_payout(7, 3, 3_333, 9), Ok(0));
    for (reserve, ownership, bps, total) in [(999u64, 17u64, 1u64, 40u64), (123_456, 789, 4_321, 1_000), (5, 5, 5, 5)] {
        let paid = proportional_payout(reserve, ownership, bps, total).unwrap() as u128;
        let exact = reserve as u128 * ownership as u128 * bps as u128;
        let denominator = 10_000u128 * total as u128;
        assert!(paid * denominator <= exact);
        assert!(exact < (paid + 1) * denominator);
    }
}

#[test]
fn payout_failures() {
    assert_eq!(proportional_payout(1, 1, 1, 0), Err(AmmError::ArithmeticError));
    assert_eq!(proportional_payout(u64::MAX, u64::MAX, 10_000, u64::MAX), Err(AmmError::ArithmeticError));
    // the quotient is 2^64, one beyond what 64 bits hold
    assert_eq!(proportional_payout(1 << 63, 2, 10_000, 1), Err(AmmError::ArithmeticError));
    assert_eq!(proportional_payout(u64::MAX, 1, 10_000, 1), Ok(u64::MAX));
}

#[test]
fn burn_rounds_up() {
    assert_eq!(ownership_burn(10_000, 5_000), Ok(5_000));
    assert_eq!(ownership_burn(1, 1), Ok(1));
    assert_eq!(ownership_burn(3, 3_333), Ok(1));
    assert_eq!(ownership_burn(3, 3_334), Ok(2));
    assert_eq!(ownership_burn(0, 10_000), Ok(0));
    assert_eq!(ownership_burn(77, 0), Ok(0));
    assert_eq!(ownership_burn(u64::MAX, 10_000), Ok(u64::MAX));
    for (ownership, bps) in [(999u64, 17u64), (123_456, 4_321), (5, 5)] {
        let burned = ownership_burn(ownership, bps).unwrap() as u128;
        let exact = ownership as u128 * bps as u128;
        assert!(burned * 10_000 >= exact);
        assert!((burned - 1) * 10_000 < exact);
    }
}

#[test]
fn burn_beyond_64_bits_fails() {
    assert_eq!(ownership_burn(u64::MAX, 10_001), Err(AmmError::ArithmeticError));
    assert_eq!(ownership_burn(u64::MAX, u64::MAX), Err(AmmError::ArithmeticError));
}

#[test]
fn payout_per_retired_unit_stays_under_the_pool_average() {
    for (reserve, ownership, bps, total) in [(1_000u64, 3u64, 3_333u64, 10u64), (999_999, 1, 1, 7), (50, 49, 9_999, 50)] {
        let paid = proportional_payout(reserve, ownership, bps, total).unwrap() as u128;
        let burned = ownership_burn(ownership, bps).unwrap() as u128;
        assert!(paid * total as u128 <= reserve as u128 * burned);
    }
}

#[test]
fn observed_price_is_quote_per_base() {
    assert_eq!(TwapOracle::observed_price(1_000, 2_000), 2 * PRICE_SCALE);
    assert_eq!(TwapOracle::observed_price(3, 1), 333_333_333_333);
    assert_eq!(TwapOracle::observed_price(0, 5), 0);
    assert_eq!(TwapOracle::observed_price(5, 0), 0);
    assert_eq!(TwapOracle::observed_price(1, u64::MAX), u64::MAX as u128 * PRICE_SCALE);
}

#[test]
fn oracle_accumulates_elapsed_times_price() {
    let mut oracle = TwapOracle::new(100);
    assert_eq!(oracle, TwapOracle { last_update_marker: 100, price_accumulator: 0 });
    assert_eq!(oracle.advance(110, 1_000, 2_000), Ok(()));
    assert_eq!(oracle, TwapOracle { last_update_marker: 110, price_accumulator: 20 * PRICE_SCALE });
    assert_eq!(oracle.advance(113, 2_000, 1_000), Ok(()));
    assert_eq!(oracle.price_accumulator, 20 * PRICE_SCALE + 3 * PRICE_SCALE / 2);
}

#[test]
fn oracle_without_elapsed_time_keeps_its_sum() {
    let mut oracle = TwapOracle { last_update_marker: 8, price_accumulator: 123 };
    assert_eq!(oracle.advance(8, 1, u64::MAX), Ok(()));
    assert_eq!(oracle, TwapOracle { last_update_marker: 8, price_accumulator: 123 });
}

#[test]
fn oracle_failures_change_nothing() {
    let mut oracle = TwapOracle { last_update_marker: 8, price_accumulator: 123 };
    assert_eq!(oracle.advance(7, 1, 1), Err(AmmError::ArithmeticError));
    assert_eq!(oracle, TwapOracle { last_update_marker: 8, price_accumulator: 123 });
    let mut full = TwapOracle { last_update_marker: 0, price_accumulator: u128::MAX };
    assert_eq!(full.advance(1, 1, 1), Err(AmmError::ArithmeticError));
    assert_eq!(full, TwapOracle { last_update_marker: 0, price_accumulator: u128::MAX });
    let mut wide = TwapOracle::new(0);
    assert_eq!(wide.advance(u64::MAX, 1, u64::MAX), Err(AmmError::ArithmeticError));
    assert_eq!(wide, TwapOracle::new(0));
}

fn empty_pool() -> Amm {
    Amm::new(
        7,
        Address { bytes: [9; 32] },
        Address { bytes: [8; 32] },
        Address { bytes: [6; 32] },
        Address { bytes: [5; 32] },
        42,
    )
}

#[test]
fn new_pool_is_empty() {
    let amm = empty_pool();
    assert_eq!(amm.bump, 7);
    assert_eq!(amm.base_mint, Address { bytes: [9; 32] });
    assert_eq!(amm.quote_mint, Address { bytes: [8; 32] });
    assert_eq!(amm.vault_base, Address { bytes: [6; 32] });
    assert_eq!(amm.vault_quote, Address { bytes: [5; 32] });
    assert_eq!((amm.base_amount, amm.quote_amount, amm.total_ownership), (0, 0, 0));
    assert_eq!(amm.twap_state, TwapOracle { last_update_marker: 42, price_accumulator: 0 });
}

#[test]
fn reserves_are_credited_and_debited() {
    let mut amm = empty_pool();
    assert_eq!(amm.credit_reserves(10, 20), Ok(()));
    assert_eq!(amm.debit_reserves(4, 20), Ok(()));
    assert_eq!((amm.base_amount, amm.quote_amount), (6, 0));
    let before = amm;
    assert_eq!(amm.debit_reserves(7, 0), Err(AmmError::ArithmeticError));
    assert_eq!(amm.debit_reserves(0, 1), Err(AmmError::ArithmeticError));
    assert_eq!(amm.credit_reserves(u64::MAX, 0), Err(AmmError::ArithmeticError));
    assert_eq!(amm.credit_reserves(0, u64::MAX), Ok(()));
    assert_eq!(amm.credit_reserves(1, 1), Err(AmmError::ArithmeticError));
    assert_eq!(amm.base_amount, before.base_amount);
    assert_eq!(amm.quote_amount, u64::MAX);
}

#[test]
fn pool_ownership_is_minted_and_burned() {
    let mut amm = empty_pool();
    assert_eq!(amm.mint_ownership(100), Ok(()));
    assert_eq!(amm.burn_ownership(30), Ok(()));
    assert_eq!(amm.total_ownership, 70);
    assert_eq!(amm.burn_ownership(71), Err(AmmError::ArithmeticError));
    assert_eq!(amm.mint_ownership(u64::MAX), Err(AmmError::ArithmeticError));
    assert_eq!(amm.total_ownership, 70);
}

#[test]
fn position_ownership_is_minted_and_burned() {
    let mut position = AmmPosition::new(5);
    assert_eq!(position.mint_ownership(10), Ok(()));
    assert_eq!(position.burn_ownership(15), Ok(()));
    assert_eq!(position.ownership, 0);
    assert_eq!(position.burn_ownership(1), Err(AmmError::ArithmeticError));
    assert_eq!(position.mint_ownership(u64::MAX), Ok(()));
    assert_eq!(position.mint_ownership(1), Err(AmmError::ArithmeticError));
    assert_eq!(position.ownership, u64::MAX);
}

#[test]
fn pool_oracle_uses_the_pool_reserves() {
    let mut amm = empty_pool();
    amm.credit_reserves(4, 10).unwrap();
    assert_eq!(amm.update_twap(44), Ok(()));
    assert_eq!(amm.twap_state, TwapOracle { last_update_marker: 44, price_accumulator: 5 * PRICE_SCALE });
    assert_eq!(amm.update_twap(43), Err(AmmError::ArithmeticError));
    assert_eq!(amm.twap_state.last_update_marker, 44);
}

#[test]
fn errors_describe_themselves() {
    assert_eq!(AmmError::PreconditionViolation.message(), "a withdrawal parameter is out of range");
    assert_eq!(AmmError::ArithmeticError.message(), "an arithmetic operation has no result");
    assert_eq!(AmmError::CustodyRequestFailed.message(), "the token custodian refused a request");
}
