//! Fixed-point decimals with 18 fractional digits, held as a count of
//! atomic units, and the arithmetic the games need on them.

use vstd::prelude::*;
use vstd::arithmetic::div_mod::lemma_fundamental_div_mod_converse;

verus! {

/// The number of atomic units in 1.0.
pub const DECIMAL_FRACTIONAL: u128 = 1_000_000_000_000_000_000;

/// A non-negative decimal number: `atomics / 10^18`.
#[derive(Clone, Copy, Debug, PartialEq, Eq, Structural)]
pub struct Decimal {
    pub atomics: u128,
}

/// The atomic units that a decimal string stands for, or `None` where the
/// string is not a decimal number with at most 18 fractional digits that fits.
pub uninterp spec fn decimal_from_str(text: Seq<char>) -> Option<u128>;

/// The text that `cosmwasm_std::Decimal` prints for a decimal of so many
/// atomic units.
pub uninterp spec fn decimal_to_string(atomics: u128) -> Seq<char>;

/// `amount * atomics / 10^18`, rounded down.
pub open spec fn mul_floor(amount: nat, atomics: nat) -> nat {
    amount * atomics / (DECIMAL_FRACTIONAL as nat)
}

/// `numerator / denominator` in atomic units, rounded down.
pub open spec fn ratio_floor(numerator: nat, denominator: nat) -> nat
    recommends
        denominator != 0,
{
    numerator * (DECIMAL_FRACTIONAL as nat) / denominator
}

/// `mul_floor`, or `None` where the product leaves the 128-bit range.
pub open spec fn checked_mul_floor(amount: u128, factor: Decimal) -> Option<u128> {
    if mul_floor(amount as nat, factor.atomics as nat) <= u128::MAX {
        Some(mul_floor(amount as nat, factor.atomics as nat) as u128)
    } else {
        None
    }
}

/// Calls `cosmwasm_std::Decimal::from_str` and hands back the atomic units of
/// the decimal it parsed. The contract only names the result: the same text
/// always parses to the same value.
#[verifier::external_body]
fn parse_atomics(text: &str) -> (parsed: Option<u128>)
    ensures
        parsed == decimal_from_str(text@),
{
    match <cosmwasm_std::Decimal as std::str::FromStr>::from_str(text) {
        Ok(d) => Some(cosmwasm_std::Fraction::numerator(&d)),
        Err(_) => None,
    }
}

/// Calls `cosmwasm_std::Decimal::from_ratio`, which multiplies the numerator
/// by 10^18 in 256 bits and divides, rounding down. It panics on a zero
/// denominator and on a quotient beyond 128 bits; both are excluded here.
#[verifier::external_body]
fn ratio_atomics(numerator: u128, denominator: u128) -> (atomics: u128)
    requires
        denominator != 0,
        ratio_floor(numerator as nat, denominator as nat) <= u128::MAX,
    ensures
        atomics == ratio_floor(numerator as nat, denominator as nat),
{
    let d = cosmwasm_std::Decimal::from_ratio(numerator, denominator);
    cosmwasm_std::Fraction::numerator(&d)
}

/// Calls `to_string` on the `cosmwasm_std::Decimal` of so many atomic units,
/// made by `cosmwasm_std::Decimal::from_ratio` of the atomic units and
/// 10^18, which is exact. The contract only names the result: the same
/// decimal always prints the same text.
#[verifier::external_body]
fn format_atomics(atomics: u128) -> (text: String)
    ensures
        text@ == decimal_to_string(atomics),
{
    let one = cosmwasm_std::Fraction::denominator(&cosmwasm_std::Decimal::one());
    cosmwasm_std::Decimal::from_ratio(atomics, one).to_string()
}

/// `amount * atomics / 10^18` written over the quotients and remainders of
/// both factors by 10^18, so that every term can be computed in 128 bits.
proof fn lemma_mul_floor_split(amount: nat, atomics: nat)
    ensures
        mul_floor(amount, atomics) == (amount / 1_000_000_000_000_000_000) * (atomics
            / 1_000_000_000_000_000_000) * 1_000_000_000_000_000_000 + (amount
            / 1_000_000_000_000_000_000) * (atomics % 1_000_000_000_000_000_000) + (amount
            % 1_000_000_000_000_000_000) * (atomics / 1_000_000_000_000_000_000) + ((amount
            % 1_000_000_000_000_000_000) * (atomics % 1_000_000_000_000_000_000))
            / 1_000_000_000_000_000_000,
        (amount % 1_000_000_000_000_000_000) * (atomics % 1_000_000_000_000_000_000)
            < 1_000_000_000_000_000_000_000_000_000_000_000_000,
{
    let q = amount / 1_000_000_000_000_000_000;
    let r = amount % 1_000_000_000_000_000_000;
    let a1 = atomics / 1_000_000_000_000_000_000;
    let a0 = atomics % 1_000_000_000_000_000_000;
    let k = q * a1 * 1_000_000_000_000_000_000 + q * a0 + r * a1;
    let x = r * a0;
    assert(amount == 1_000_000_000_000_000_000 * q + r);
    assert(atomics == 1_000_000_000_000_000_000 * a1 + a0);
    assert(amount * atomics == 1_000_000_000_000_000_000 * k + x) by (nonlinear_arith)
        requires
            amount == 1_000_000_000_000_000_000 * q + r,
            atomics == 1_000_000_000_000_000_000 * a1 + a0,
            k == q * a1 * 1_000_000_000_000_000_000 + q * a0 + r * a1,
            x == r * a0,
    ;
    assert(x < 1_000_000_000_000_000_000_000_000_000_000_000_000) by (nonlinear_arith)
        requires
            x == r * a0,
            r < 1_000_000_000_000_000_000,
            a0 < 1_000_000_000_000_000_000,
    ;
    assert((1_000_000_000_000_000_000 * k + x) / 1_000_000_000_000_000_000 == k + x
        / 1_000_000_000_000_000_000);
}

/// A quotient `x / d` is below `2^128` exactly where `x` is below `2^128 * d`.
proof fn lemma_quotient_fits(x: nat, d: nat)
    requires
        d > 0,
    ensures
        (x / d <= u128::MAX) == (x < (u128::MAX + 1) * d),
{
    let bound: int = u128::MAX + 1;
    assert((x as int / d as int <= bound - 1) == (x < bound * d)) by (nonlinear_arith)
        requires
            d > 0,
            x >= 0,
            bound > 0,
    ;
}

/// `ratio_floor`, or `None` where the denominator is zero or the quotient
/// leaves the 128-bit range.
pub open spec fn checked_ratio_floor(numerator: u128, denominator: u128) -> Option<u128> {
    if denominator != 0 && ratio_floor(numerator as nat, denominator as nat) <= u128::MAX {
        Some(ratio_floor(numerator as nat, denominator as nat) as u128)
    } else {
        None
    }
}

/// Whether `numerator / denominator` is a decimal: the denominator is not
/// zero and the quotient, in atomic units, fits 128 bits.
pub fn ratio_fits(numerator: u128, denominator: u128) -> (fits: bool)
    ensures
        fits == checked_ratio_floor(numerator, denominator).is_some(),
{
    if denominator == 0 {
        return false;
    }
    let high: u128 = (numerator / 0x1_0000_0000_0000_0000) * DECIMAL_FRACTIONAL;
    let low: u128 = (numerator % 0x1_0000_0000_0000_0000) * DECIMAL_FRACTIONAL;
    let carry: u128 = (high + low / 0x1_0000_0000_0000_0000) / 0x1_0000_0000_0000_0000;
    proof {
        let scaled = numerator as nat * 1_000_000_000_000_000_000;
        let top = high + low / 0x1_0000_0000_0000_0000;
        let rest = (top % 0x1_0000_0000_0000_0000) * 0x1_0000_0000_0000_0000 + low
            % 0x1_0000_0000_0000_0000;
        assert(scaled == high * 0x1_0000_0000_0000_0000 + low);
        assert(0 <= rest < u128::MAX + 1);
        assert(scaled == carry * (u128::MAX + 1) + rest);
        lemma_fundamental_div_mod_converse(scaled as int, u128::MAX + 1, carry as int, rest as int);
        lemma_quotient_fits(scaled, denominator as nat);
    }
    carry < denominator
}

impl Decimal {
    /// `numerator / denominator`, rounded down to 18 fractional digits, or
    /// `None` where the denominator is zero or the quotient is too large.
    pub fn checked_from_ratio(numerator: u128, denominator: u128) -> (d: Option<Decimal>)
        ensures
            d == (match checked_ratio_floor(numerator, denominator) {
                Some(atomics) => Some(Decimal { atomics }),
                None => None,
            }),
    {
        if ratio_fits(numerator, denominator) {
            Some(Decimal { atomics: ratio_atomics(numerator, denominator) })
        } else {
            None
        }
    }

    /// 1.0
    pub fn one() -> (d: Decimal)
        ensures
            d.atomics == DECIMAL_FRACTIONAL,
    {
        Decimal { atomics: DECIMAL_FRACTIONAL }
    }

    /// 0.0
    pub fn zero() -> (d: Decimal)
        ensures
            d.atomics == 0,
    {
        Decimal { atomics: 0 }
    }

    /// The decimal as text.
    pub fn to_text(&self) -> (text: String)
        ensures
            text@ == decimal_to_string(self.atomics),
    {
        format_atomics(self.atomics)
    }

    /// The decimal that `text` stands for, where it stands for one.
    pub fn from_str(text: &str) -> (parsed: Result<Decimal, crate::error::StdError>)
        ensures
            parsed == Self::parsed(decimal_from_str(text@)),
    {
        Self::from_parsed(parse_atomics(text))
    }

    /// What `from_str` returns for each outcome of parsing.
    pub open spec fn parsed(atomics: Option<u128>) -> Result<Decimal, crate::error::StdError> {
        match atomics {
            Some(a) => Ok(Decimal { atomics: a }),
            None => Err(crate::error::StdError::ParseDecimal),
        }
    }

    /// Turns the outcome of parsing into a decimal or a parse error.
    pub fn from_parsed(atomics: Option<u128>) -> (parsed: Result<Decimal, crate::error::StdError>)
        ensures
            parsed == Self::parsed(atomics),
    {
        match atomics {
            Some(a) => Ok(Decimal { atomics: a }),
            None => Err(crate::error::StdError::ParseDecimal),
        }
    }

    /// `numerator / denominator`, rounded down to 18 fractional digits.
    pub fn from_ratio(numerator: u128, denominator: u128) -> (d: Decimal)
        requires
            denominator != 0,
            ratio_floor(numerator as nat, denominator as nat) <= u128::MAX,
        ensures
            d.atomics == ratio_floor(numerator as nat, denominator as nat),
    {
        Decimal { atomics: ratio_atomics(numerator, denominator) }
    }

    /// `self - other`, or `None` where `other` is the larger.
    pub fn checked_sub(self, other: Decimal) -> (d: Option<Decimal>)
        ensures
            d == (if self.atomics >= other.atomics {
                Some(Decimal { atomics: (self.atomics - other.atomics) as u128 })
            } else {
                None
            }),
    {
        if self.atomics >= other.atomics {
            Some(Decimal { atomics: self.atomics - other.atomics })
        } else {
            None
        }
    }

    /// `amount * self`, rounded down, or `None` where it exceeds 128 bits.
    pub fn checked_mul_uint(self, amount: u128) -> (product: Option<u128>)
        ensures
            product == checked_mul_floor(amount, self),
    {
        let q: u128 = amount / DECIMAL_FRACTIONAL;
        let r: u128 = amount % DECIMAL_FRACTIONAL;
        let a1: u128 = self.atomics / DECIMAL_FRACTIONAL;
        let a0: u128 = self.atomics % DECIMAL_FRACTIONAL;
        proof {
            lemma_mul_floor_split(amount as nat, self.atomics as nat);
            assert(q * a1 * 1_000_000_000_000_000_000 >= q * a1 >= 0) by (nonlinear_arith)
                requires
                    q >= 0,
                    a1 >= 0,
            ;
            assert(q * a0 >= 0 && r * a1 >= 0 && r * a0 >= 0) by (nonlinear_arith)
                requires
                    q >= 0,
                    a1 >= 0,
                    r >= 0,
                    a0 >= 0,
            ;
        }
        let high = match q.checked_mul(a1) {
            Some(t) => match t.checked_mul(DECIMAL_FRACTIONAL) {
                Some(t) => t,
                None => { return None; },
            },
            None => { return None; },
        };
        let mid_a = match q.checked_mul(a0) {
            Some(t) => t,
            None => { return None; },
        };
        let mid_b = match r.checked_mul(a1) {
            Some(t) => t,
            None => { return None; },
        };
        let low: u128 = (r * a0) / DECIMAL_FRACTIONAL;
        let sum = match high.checked_add(mid_a) {
            Some(s) => match s.checked_add(mid_b) {
                Some(s) => match s.checked_add(low) {
                    Some(s) => s,
                    None => { return None; },
                },
                None => { return None; },
            },
            None => { return None; },
        };
        Some(sum)
    }
}

} // verus!
