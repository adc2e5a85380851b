use terra_vegas::decimal::{Decimal, DECIMAL_FRACTIONAL};
use terra_vegas::tax::{checked_div_decimal, TaxPolicy};
use terra_vegas::treasury::{treasury_action, TreasuryAction};

#[test]
fn tax_is_what_exceeds_the_net_amount() {
    let policy = TaxPolicy { rate: Decimal::from_str("0.01").unwrap(), cap: 1_000_000 };
    // 1000 - floor(1000 / 1.01) = 1000 - 990 = 10
    assert_eq!(policy.compute_tax(1000), 10);
    assert_eq!(policy.deduct_tax(1000), 990);
    assert_eq!(policy.compute_tax(0), 0);
    assert_eq!(policy.compute_tax(100), 1);
}

#[test]
fn tax_of_a_million_at_one_percent_is_capped_at_100() {
    let policy = TaxPolicy { rate: Decimal::from_str("0.01").unwrap(), cap: 100 };
    assert_eq!(policy.compute_tax(1000), 10);
    // 1000000 - floor(1000000 / 1.01) = 1000000 - 990099 = 9901, capped
    assert_eq!(policy.compute_tax(1_000_000), 100);
    let uncapped = TaxPolicy { rate: Decimal::from_str("0.01").unwrap(), cap: u128::MAX };
    assert_eq!(uncapped.compute_tax(1_000_000), 9901);
}

#[test]
fn tax_is_capped() {
    let policy = TaxPolicy { rate: Decimal::from_str("0.01").unwrap(), cap: 3 };
    assert_eq!(policy.compute_tax(1000), 3);
    assert_eq!(policy.deduct_tax(1000), 997);
}

#[test]
fn no_rate_no_tax() {
    let policy = TaxPolicy { rate: Decimal::zero(), cap: 100 };
    assert_eq!(policy.compute_tax(123_456), 0);
    assert_eq!(policy.deduct_tax(u128::MAX), u128::MAX);
}

#[test]
fn largest_rates_are_taxed_like_any_other() {
    // 1 + rate is beyond 128 bits: floor(1000 / (1 + rate)) is 0, the tax before the cap 1000
    let policy = TaxPolicy { rate: Decimal { atomics: u128::MAX }, cap: 100 };
    assert_eq!(policy.compute_tax(1000), 100);
    assert_eq!(policy.deduct_tax(1000), 900);
    let uncapped = TaxPolicy { rate: Decimal { atomics: u128::MAX }, cap: u128::MAX };
    assert_eq!(uncapped.compute_tax(1000), 1000);
    assert_eq!(uncapped.deduct_tax(1000), 0);
    // floor(u128::MAX * 10^18 / (10^18 + u128::MAX)) = 10^18 - 1
    assert_eq!(uncapped.deduct_tax(u128::MAX), DECIMAL_FRACTIONAL - 1);
    let just_beyond = TaxPolicy {
        rate: Decimal { atomics: u128::MAX - DECIMAL_FRACTIONAL + 1 },
        cap: u128::MAX,
    };
    assert_eq!(just_beyond.compute_tax(1000), 1000);
    let largest = TaxPolicy { rate: Decimal { atomics: u128::MAX - DECIMAL_FRACTIONAL }, cap: u128::MAX };
    assert_eq!(largest.compute_tax(1000), 1000);
}

#[test]
fn division_by_a_decimal_rounds_down() {
    assert_eq!(checked_div_decimal(101, Decimal::from_str("1.01").unwrap()), Some(100));
    assert_eq!(checked_div_decimal(100, Decimal::from_str("3").unwrap()), Some(33));
    assert_eq!(checked_div_decimal(100, Decimal::zero()), None);
    assert_eq!(checked_div_decimal(u128::MAX, Decimal::one()), Some(u128::MAX));
    assert_eq!(checked_div_decimal(u128::MAX, Decimal { atomics: DECIMAL_FRACTIONAL - 1 }), None);
    assert_eq!(checked_div_decimal(1, Decimal { atomics: 1 }), Some(DECIMAL_FRACTIONAL));
    assert_eq!(checked_div_decimal(u128::MAX / DECIMAL_FRACTIONAL + 1, Decimal { atomics: 1 }), None);
}

#[test]
fn settlement_asks_for_what_is_missing() {
    let policy = TaxPolicy { rate: Decimal::zero(), cap: 100 };
    assert_eq!(
        treasury_action(1186, 0, 10_000, &policy),
        TreasuryAction::RequestFunds { amount: 1186 }
    );
    assert_eq!(
        treasury_action(1186, 1000, 10_000, &policy),
        TreasuryAction::RequestFunds { amount: 186 }
    );
}

#[test]
fn settlement_pays_in_the_surplus_after_tax() {
    let policy = TaxPolicy { rate: Decimal::from_str("0.01").unwrap(), cap: 50 };
    // surplus 20000 - 1000 = 19000, tax min(19000 - floor(19000 / 1.01), 50) = 50
    assert_eq!(
        treasury_action(1000, 20_000, 10_000, &policy),
        TreasuryAction::DepositFunds { amount: 18_950 }
    );
}

#[test]
fn settlement_sends_nothing_within_the_cashflow() {
    let policy = TaxPolicy { rate: Decimal::zero(), cap: 100 };
    assert_eq!(treasury_action(0, 0, 10_000, &policy), TreasuryAction::Nothing);
    assert_eq!(treasury_action(1000, 11_000, 10_000, &policy), TreasuryAction::Nothing);
    assert_eq!(
        treasury_action(1000, 11_001, 10_000, &policy),
        TreasuryAction::DepositFunds { amount: 10_001 }
    );
    assert_eq!(treasury_action(1000, 1000, 10_000, &policy), TreasuryAction::Nothing);
}

#[test]
fn settlement_pays_in_under_the_largest_rate() {
    let policy = TaxPolicy { rate: Decimal { atomics: u128::MAX }, cap: 100 };
    assert_eq!(
        treasury_action(0, 20_000, 10_000, &policy),
        TreasuryAction::DepositFunds { amount: 19_900 }
    );
    assert_eq!(
        treasury_action(30_000, 20_000, 10_000, &policy),
        TreasuryAction::RequestFunds { amount: 10_000 }
    );
}
