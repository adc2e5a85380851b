//! What a game does with its balance after a settlement: ask the reserve for
//! what is missing, hand it the surplus, or nothing.

use vstd::prelude::*;
use crate::tax::TaxPolicy;

verus! {

/// The one message, if any, that a settlement sends to the reserve.
#[derive(Clone, Copy, Debug, PartialEq, Eq, Structural)]
pub enum TreasuryAction {
    /// Nothing is sent.
    Nothing,
    /// The reserve is asked for `amount`, the part of the unclaimed rewards
    /// that the balance does not cover.
    RequestFunds { amount: u128 },
    /// `amount`, the surplus after tax, is paid into the reserve.
    DepositFunds { amount: u128 },
}

/// The message for unclaimed rewards of `total_rewards` and a balance of
/// `balance`.
pub open spec fn spec_treasury_action(
    total_rewards: u128,
    balance: u128,
    max_cashflow: u128,
    tax: TaxPolicy,
) -> TreasuryAction {
    if total_rewards > balance {
        TreasuryAction::RequestFunds { amount: (total_rewards - balance) as u128 }
    } else if balance - total_rewards > max_cashflow {
        TreasuryAction::DepositFunds {
            amount: tax.spec_after_tax((balance - total_rewards) as u128),
        }
    } else {
        TreasuryAction::Nothing
    }
}

/// Decides the message that follows a settlement.
pub fn treasury_action(total_rewards: u128, balance: u128, max_cashflow: u128, tax: &TaxPolicy) -> (action:
    TreasuryAction)
    ensures
        action == spec_treasury_action(total_rewards, balance, max_cashflow, *tax),
{
    if total_rewards > balance {
        TreasuryAction::RequestFunds { amount: total_rewards - balance }
    } else {
        let surplus: u128 = balance - total_rewards;
        if surplus > max_cashflow {
            TreasuryAction::DepositFunds { amount: tax.deduct_tax(surplus) }
        } else {
            TreasuryAction::Nothing
        }
    }
}

/// A settlement sends at most one message: where it asks for funds it pays
/// none in, and where it pays funds in it asks for none.
pub proof fn lemma_never_request_and_deposit(
    total_rewards: u128,
    balance: u128,
    max_cashflow: u128,
    tax: TaxPolicy,
)
    ensures
        spec_treasury_action(total_rewards, balance, max_cashflow, tax)
            matches TreasuryAction::RequestFunds { amount } ==> total_rewards > balance && amount
            == total_rewards - balance,
        spec_treasury_action(total_rewards, balance, max_cashflow, tax)
            matches TreasuryAction::DepositFunds { amount } ==> total_rewards <= balance && balance
            - total_rewards > max_cashflow,
{
}

} // verus!
