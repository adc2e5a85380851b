//! The payout table of the double-dice game.

use vstd::prelude::*;
use crate::decimal::{ratio_floor, decimal_from_str, Decimal, DECIMAL_FRACTIONAL};
use crate::error::{ContractError, StdError};

verus! {

/// Of the 36 rolls of two dice, the number whose total reaches at least the
/// outcome at position `index` of the table (position 0 is outcome 3).
pub open spec fn winning_rolls(index: int) -> nat {
    if index == 0 {
        35
    } else if index == 1 {
        33
    } else if index == 2 {
        30
    } else if index == 3 {
        26
    } else if index == 4 {
        21
    } else if index == 5 {
        15
    } else if index == 6 {
        10
    } else if index == 7 {
        6
    } else if index == 8 {
        3
    } else {
        1
    }
}

/// The coefficient at position `index` for the share `keep` (in atomic units)
/// that the house leaves to the players: `keep * 36 / rolls - 1`, the
/// quotient rounded down to 18 digits. Negative where the advantage is too
/// large for the outcome to pay anything.
pub open spec fn coefficient(keep: nat, index: int) -> int {
    ratio_floor(keep * 36, DECIMAL_FRACTIONAL as nat * winning_rolls(index)) - DECIMAL_FRACTIONAL
}

/// The advantages for which every outcome has a coefficient.
pub open spec fn valid_advantage(advantage: Decimal) -> bool {
    &&& advantage.atomics <= DECIMAL_FRACTIONAL
    &&& forall|index: int|
        0 <= index < 10 ==> #[trigger] coefficient(
            (DECIMAL_FRACTIONAL - advantage.atomics) as nat,
            index,
        ) >= 0
}

/// The table for a valid advantage.
pub open spec fn table(advantage: Decimal) -> Seq<Decimal> {
    Seq::new(
        10,
        |index: int|
            Decimal {
                atomics: coefficient((DECIMAL_FRACTIONAL - advantage.atomics) as nat, index) as u128,
            },
    )
}

/// What `win_coefficients` returns for an advantage.
pub open spec fn is_table_of(
    advantage: Decimal,
    result: Result<Vec<Decimal>, ContractError>,
) -> bool {
    match result {
        Ok(coefficients) => valid_advantage(advantage) && coefficients@ == table(advantage),
        Err(e) => !valid_advantage(advantage) && e == ContractError::AdvantageValueOutOfRange,
    }
}

fn rolls_at(index: usize) -> (rolls: u128)
    requires
        index < 10,
    ensures
        rolls == winning_rolls(index as int),
{
    if index == 0 {
        35
    } else if index == 1 {
        33
    } else if index == 2 {
        30
    } else if index == 3 {
        26
    } else if index == 4 {
        21
    } else if index == 5 {
        15
    } else if index == 6 {
        10
    } else if index == 7 {
        6
    } else if index == 8 {
        3
    } else {
        1
    }
}

/// The whole table for a house advantage, computed anew. An advantage that
/// leaves some outcome without a payout is refused.
pub fn win_coefficients(advantage: Decimal) -> (result: Result<Vec<Decimal>, ContractError>)
    ensures
        is_table_of(advantage, result),
{
    let keep = match Decimal::one().checked_sub(advantage) {
        Some(keep) => keep,
        None => { return Err(ContractError::AdvantageValueOutOfRange); },
    };
    let mut coefficients: Vec<Decimal> = Vec::new();
    let mut index: usize = 0;
    while index < 10
        invariant
            index <= 10,
            advantage.atomics <= DECIMAL_FRACTIONAL,
            keep.atomics == DECIMAL_FRACTIONAL - advantage.atomics,
            coefficients@.len() == index,
            forall|j: int|
                0 <= j < index ==> #[trigger] coefficient(keep.atomics as nat, j) >= 0
                    && coefficients@[j].atomics == coefficient(keep.atomics as nat, j),
        decreases 10 - index,
    {
        let rolls = rolls_at(index);
        let numerator: u128 = keep.atomics * 36;
        let denominator: u128 = DECIMAL_FRACTIONAL * rolls;
        assert(ratio_floor(numerator as nat, denominator as nat) <= numerator
            * 1_000_000_000_000_000_000) by (nonlinear_arith)
            requires
                denominator >= 1,
                numerator >= 0,
        ;
        let ratio = Decimal::from_ratio(numerator, denominator);
        match ratio.checked_sub(Decimal::one()) {
            Some(c) => {
                coefficients.push(c);
            },
            None => {
                assert(coefficient(
                    (DECIMAL_FRACTIONAL - advantage.atomics) as nat,
                    index as int,
                ) < 0);
                return Err(ContractError::AdvantageValueOutOfRange);
            },
        }
        index = index + 1;
    }
    assert(coefficients@ =~= table(advantage));
    Ok(coefficients)
}

/// What `recalculate_win_coefficients` returns for each outcome of parsing
/// the advantage.
pub open spec fn is_table_of_parsed(
    parsed: Option<u128>,
    result: Result<Vec<Decimal>, ContractError>,
) -> bool {
    match parsed {
        Some(atomics) => is_table_of(Decimal { atomics }, result),
        None => result == Err::<Vec<Decimal>, ContractError>(
            ContractError::Std(StdError::ParseDecimal),
        ),
    }
}

/// The table for a house advantage written as a decimal string.
pub fn recalculate_win_coefficients(advantage_value: &str) -> (result: Result<
    Vec<Decimal>,
    ContractError,
>)
    ensures
        is_table_of_parsed(decimal_from_str(advantage_value@), result),
{
    match Decimal::from_str(advantage_value) {
        Ok(advantage) => win_coefficients(advantage),
        Err(e) => Err(ContractError::Std(e)),
    }
}

/// With no house advantage every outcome pays its fair odds: the coefficient
/// of an outcome that `rolls` of the 36 rolls win is `36 / rolls - 1`.
pub proof fn lemma_zero_advantage_pays_fair_odds(index: int)
    requires
        0 <= index < 10,
    ensures
        valid_advantage(Decimal { atomics: 0 }),
        table(Decimal { atomics: 0 })[index].atomics == ratio_floor(36, winning_rolls(index))
            - DECIMAL_FRACTIONAL,
{
    assert forall|k: int| 0 <= k < 10 implies #[trigger] coefficient(
        DECIMAL_FRACTIONAL as nat,
        k,
    ) == ratio_floor(36, winning_rolls(k)) - DECIMAL_FRACTIONAL && coefficient(
        DECIMAL_FRACTIONAL as nat,
        k,
    ) >= 0 by {
        let rolls = winning_rolls(k);
        assert(1 <= rolls <= 35);
        assert((1_000_000_000_000_000_000 * 36 * 1_000_000_000_000_000_000) / (
        1_000_000_000_000_000_000 * rolls) == (36 * 1_000_000_000_000_000_000) / rolls
            && (36 * 1_000_000_000_000_000_000) / rolls >= 1_000_000_000_000_000_000)
            by (nonlinear_arith)
            requires
                1 <= rolls <= 35,
        ;
    }
}

} // verus!
