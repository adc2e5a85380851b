use terra_vegas::admin::{win_coefficients, win_tax_from, win_tax_multiplier};
use terra_vegas::decimal::{Decimal, DECIMAL_FRACTIONAL};
use terra_vegas::error::{ContractError, StdError};
use terra_vegas::game::GameKind;

#[test]
fn dice_table_for_one_percent() {
    let table = terra_vegas::doubledice::recalculate_win_coefficients("0.01").unwrap();
    let expected = [
        "0.018285714285714285",
        "0.08",
        "0.188",
        "0.370769230769230769",
        "0.697142857142857142",
        "1.376",
        "2.564",
        "4.94",
        "10.88",
        "34.64",
    ];
    assert_eq!(table.len(), 10);
    for (coefficient, text) in table.iter().zip(expected.iter()) {
        assert_eq!(*coefficient, Decimal::from_str(text).unwrap());
    }
}

#[test]
fn dice_zero_advantage_gives_fair_odds() {
    let table = terra_vegas::doubledice::recalculate_win_coefficients("0").unwrap();
    let rolls: [u128; 10] = [35, 33, 30, 26, 21, 15, 10, 6, 3, 1];
    for (coefficient, rolls) in table.iter().zip(rolls.iter()) {
        assert_eq!(coefficient.atomics, 36 * DECIMAL_FRACTIONAL / rolls - DECIMAL_FRACTIONAL);
    }
    assert_eq!(table[9].atomics, 35 * DECIMAL_FRACTIONAL);
}

#[test]
fn dice_advantage_out_of_range() {
    assert_eq!(
        terra_vegas::doubledice::recalculate_win_coefficients("0.03"),
        Err(ContractError::AdvantageValueOutOfRange)
    );
    assert_eq!(
        terra_vegas::doubledice::recalculate_win_coefficients("1.5"),
        Err(ContractError::AdvantageValueOutOfRange)
    );
    assert_eq!(
        terra_vegas::doubledice::win_coefficients(Decimal { atomics: DECIMAL_FRACTIONAL }),
        Err(ContractError::AdvantageValueOutOfRange)
    );
}

#[test]
fn dice_advantage_not_a_decimal() {
    assert_eq!(
        terra_vegas::doubledice::recalculate_win_coefficients("one"),
        Err(ContractError::Std(StdError::ParseDecimal))
    );
}

#[test]
fn coinflip_coefficient_for_one_percent() {
    assert_eq!(
        terra_vegas::coinflip::recalculate_win_coefficients("0.01"),
        Ok(Decimal::from_str("0.98").unwrap())
    );
}

#[test]
fn coinflip_zero_advantage_gives_fair_odds() {
    assert_eq!(terra_vegas::coinflip::recalculate_win_coefficients("0"), Ok(Decimal::one()));
    assert_eq!(terra_vegas::coinflip::win_coefficient(Decimal::zero()), Ok(Decimal::one()));
}

#[test]
fn coinflip_advantage_out_of_range() {
    assert_eq!(
        terra_vegas::coinflip::recalculate_win_coefficients("0.5"),
        Ok(Decimal::zero())
    );
    assert_eq!(
        terra_vegas::coinflip::recalculate_win_coefficients("0.500000000000000001"),
        Err(ContractError::AdvantageValueOutOfRange)
    );
    assert_eq!(
        terra_vegas::coinflip::recalculate_win_coefficients("2"),
        Err(ContractError::AdvantageValueOutOfRange)
    );
    assert_eq!(
        terra_vegas::coinflip::recalculate_win_coefficients("x"),
        Err(ContractError::Std(StdError::ParseDecimal))
    );
}

#[test]
fn coefficients_by_game() {
    assert_eq!(
        win_coefficients(GameKind::Coinflip, "0.01"),
        Ok(vec![Decimal::from_str("0.98").unwrap()])
    );
    assert_eq!(win_coefficients(GameKind::DoubleDice, "0.01").unwrap().len(), 10);
}

#[test]
fn win_tax_is_what_is_left_of_one() {
    assert_eq!(win_tax_multiplier("0.01"), Ok(Decimal::from_str("0.99").unwrap()));
    assert_eq!(win_tax_multiplier("1"), Ok(Decimal::zero()));
    assert_eq!(win_tax_multiplier("1.01"), Err(ContractError::Std(StdError::Overflow)));
    assert_eq!(win_tax_multiplier("tax"), Err(ContractError::Std(StdError::ParseDecimal)));
    assert_eq!(
        win_tax_from(Err(StdError::ParseDecimal)),
        Err(ContractError::Std(StdError::ParseDecimal))
    );
    assert_eq!(win_tax_from(Ok(Decimal::zero())), Ok(Decimal::one()));
}
