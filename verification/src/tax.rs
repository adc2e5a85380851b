//! The tax that the chain takes from every transfer of native currency.

use vstd::prelude::*;
use vstd::arithmetic::div_mod::lemma_div_is_ordered_by_denominator;
use crate::decimal::{ratio_fits, ratio_floor, Decimal, DECIMAL_FRACTIONAL};

verus! {

/// The tax rate and the cap on the tax of one transfer, as the chain gives
/// them for a denomination.
#[derive(Clone, Copy, Debug, PartialEq, Eq, Structural)]
pub struct TaxPolicy {
    pub rate: Decimal,
    pub cap: u128,
}

/// `amount / divisor` for a decimal divisor given in atomic units, rounded down.
pub open spec fn div_floor(amount: nat, atomics: nat) -> nat
    recommends
        atomics != 0,
{
    ratio_floor(amount, atomics)
}

/// Calls the division of a `cosmwasm_bignumber::Uint256` by a
/// `cosmwasm_bignumber::Decimal256`: the amount times 10^18, divided by the
/// decimal's atomic units and rounded down. It panics on a zero divisor, and
/// turning the result into 128 bits panics where it is larger; both are
/// excluded here.
#[verifier::external_body]
pub(crate) fn uint256_div_decimal(amount: u128, atomics: u128) -> (quotient: u128)
    requires
        atomics != 0,
        div_floor(amount as nat, atomics as nat) <= u128::MAX,
    ensures
        quotient == div_floor(amount as nat, atomics as nat),
{
    let divisor = cosmwasm_bignumber::Decimal256(cosmwasm_bignumber::Uint256::from(atomics).0);
    let quotient = cosmwasm_bignumber::Uint256::from(amount) / divisor;
    quotient.into()
}

/// Calls the division of a `cosmwasm_bignumber::Uint256` by the sum of
/// `cosmwasm_bignumber::Decimal256::one()` and the `Decimal256` of the rate:
/// the sum is taken in 256 bits, and the amount times 10^18 is divided by
/// its atomic units and rounded down. The divisor is at least one, so the
/// quotient is at most the amount and nothing panics.
#[verifier::external_body]
pub(crate) fn uint256_div_one_plus(amount: u128, rate_atomics: u128) -> (quotient: u128)
    ensures
        quotient == div_floor(amount as nat, DECIMAL_FRACTIONAL as nat + rate_atomics as nat),
{
    let rate = cosmwasm_bignumber::Decimal256(cosmwasm_bignumber::Uint256::from(rate_atomics).0);
    let divisor = cosmwasm_bignumber::Decimal256::one() + rate;
    let quotient = cosmwasm_bignumber::Uint256::from(amount) / divisor;
    quotient.into()
}

/// `div_floor`, or `None` where the divisor is zero or the quotient leaves
/// the 128-bit range.
pub open spec fn checked_div_floor(amount: u128, divisor: Decimal) -> Option<u128> {
    if divisor.atomics != 0 && div_floor(amount as nat, divisor.atomics as nat) <= u128::MAX {
        Some(div_floor(amount as nat, divisor.atomics as nat) as u128)
    } else {
        None
    }
}

/// `amount / divisor`, rounded down, or `None` where the divisor is zero or
/// the quotient exceeds 128 bits.
pub fn checked_div_decimal(amount: u128, divisor: Decimal) -> (quotient: Option<u128>)
    ensures
        quotient == checked_div_floor(amount, divisor),
{
    if ratio_fits(amount, divisor.atomics) {
        Some(uint256_div_decimal(amount, divisor.atomics))
    } else {
        None
    }
}

impl TaxPolicy {
    /// What is left of `amount` before the cap is applied: `amount / (1 +
    /// rate)`, rounded down.
    pub open spec fn spec_net(self, amount: u128) -> nat {
        div_floor(amount as nat, DECIMAL_FRACTIONAL as nat + self.rate.atomics as nat)
    }

    /// The tax on a transfer of `amount`: what exceeds `amount / (1 + rate)`,
    /// but no more than the cap.
    pub open spec fn spec_tax(self, amount: u128) -> u128 {
        if amount - self.spec_net(amount) <= self.cap {
            (amount - self.spec_net(amount)) as u128
        } else {
            self.cap
        }
    }

    /// What is left of a transfer of `amount` after tax.
    pub open spec fn spec_after_tax(self, amount: u128) -> u128 {
        (amount - self.spec_tax(amount)) as u128
    }

    /// The tax never exceeds the amount it is taken from, nor the cap, and
    /// without a rate there is no tax.
    pub proof fn lemma_tax_at_most_amount(self, amount: u128)
        ensures
            self.spec_net(amount) <= amount,
            self.spec_tax(amount) <= amount,
            self.spec_tax(amount) <= self.cap,
            self.rate.atomics == 0 ==> self.spec_tax(amount) == 0,
    {
        let scaled = amount * 1_000_000_000_000_000_000;
        lemma_div_is_ordered_by_denominator(
            scaled,
            1_000_000_000_000_000_000,
            1_000_000_000_000_000_000 + self.rate.atomics,
        );
        assert(scaled / 1_000_000_000_000_000_000 == amount);
    }

    /// The tax on a transfer of `amount`.
    pub fn compute_tax(&self, amount: u128) -> (tax: u128)
        ensures
            tax == self.spec_tax(amount),
    {
        proof {
            self.lemma_tax_at_most_amount(amount);
        }
        let net = uint256_div_one_plus(amount, self.rate.atomics);
        let tax = amount - net;
        if tax <= self.cap {
            tax
        } else {
            self.cap
        }
    }

    /// What is left of a transfer of `amount` after tax.
    pub fn deduct_tax(&self, amount: u128) -> (left: u128)
        ensures
            left == self.spec_after_tax(amount),
    {
        proof {
            self.lemma_tax_at_most_amount(amount);
        }
        amount - self.compute_tax(amount)
    }
}

} // verus!
