//! The payout coefficient of the coin-flip game.

use vstd::prelude::*;
use crate::decimal::{ratio_floor, decimal_from_str, Decimal, DECIMAL_FRACTIONAL};
use crate::error::{ContractError, StdError};

verus! {

/// The coefficient for the share `keep` (in atomic units) that the house
/// leaves to the players: `keep / (1/2) - 1`. Negative where the advantage
/// exceeds one half.
pub open spec fn coefficient(keep: nat) -> int {
    ratio_floor(keep * 2, DECIMAL_FRACTIONAL as nat) - DECIMAL_FRACTIONAL
}

/// The advantages for which a winning bet has a coefficient.
pub open spec fn valid_advantage(advantage: Decimal) -> bool {
    &&& advantage.atomics <= DECIMAL_FRACTIONAL
    &&& coefficient((DECIMAL_FRACTIONAL - advantage.atomics) as nat) >= 0
}

/// What `win_coefficient` returns for an advantage.
pub open spec fn is_coefficient_of(advantage: Decimal, result: Result<Decimal, ContractError>) -> bool {
    match result {
        Ok(c) => valid_advantage(advantage) && c.atomics == coefficient(
            (DECIMAL_FRACTIONAL - advantage.atomics) as nat,
        ),
        Err(e) => !valid_advantage(advantage) && e == ContractError::AdvantageValueOutOfRange,
    }
}

/// The coefficient for a house advantage. An advantage that leaves a winning
/// bet without a payout is refused.
pub fn win_coefficient(advantage: Decimal) -> (result: Result<Decimal, ContractError>)
    ensures
        is_coefficient_of(advantage, result),
{
    let keep = match Decimal::one().checked_sub(advantage) {
        Some(keep) => keep,
        None => { return Err(ContractError::AdvantageValueOutOfRange); },
    };
    let numerator: u128 = keep.atomics * 2;
    assert(ratio_floor(numerator as nat, DECIMAL_FRACTIONAL as nat) == numerator);
    let ratio = Decimal::from_ratio(numerator, DECIMAL_FRACTIONAL);
    match ratio.checked_sub(Decimal::one()) {
        Some(c) => Ok(c),
        None => Err(ContractError::AdvantageValueOutOfRange),
    }
}

/// What `recalculate_win_coefficients` returns for each outcome of parsing
/// the advantage.
pub open spec fn is_coefficient_of_parsed(
    parsed: Option<u128>,
    result: Result<Decimal, ContractError>,
) -> bool {
    match parsed {
        Some(atomics) => is_coefficient_of(Decimal { atomics }, result),
        None => result == Err::<Decimal, ContractError>(ContractError::Std(StdError::ParseDecimal)),
    }
}

/// The coefficient for a house advantage written as a decimal string.
pub fn recalculate_win_coefficients(advantage_value: &str) -> (result: Result<Decimal, ContractError>)
    ensures
        is_coefficient_of_parsed(decimal_from_str(advantage_value@), result),
{
    match Decimal::from_str(advantage_value) {
        Ok(advantage) => win_coefficient(advantage),
        Err(e) => Err(ContractError::Std(e)),
    }
}

/// With no house advantage a winning bet pays its fair odds: the coefficient
/// is `1 / (1/2) - 1`, which is 1.
pub proof fn lemma_zero_advantage_pays_fair_odds()
    ensures
        valid_advantage(Decimal { atomics: 0 }),
        coefficient(DECIMAL_FRACTIONAL as nat) == ratio_floor(2, 1) - DECIMAL_FRACTIONAL,
        coefficient(DECIMAL_FRACTIONAL as nat) == DECIMAL_FRACTIONAL,
{
}

} // verus!
