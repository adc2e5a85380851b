//! The coins attached to an action.

use vstd::prelude::*;
use crate::error::PaymentError;

verus! {

/// An amount of one denomination.
#[derive(Clone, Debug, PartialEq, Eq)]
pub struct Coin {
    pub denom: String,
    pub amount: u128,
}

/// What `must_pay` returns: the amount of the single coin sent, where it is
/// not zero and of the denomination asked for.
pub open spec fn spec_must_pay(funds: Seq<Coin>, denom: String) -> Result<u128, PaymentError> {
    if funds.len() == 0 {
        Err(PaymentError::NoFunds)
    } else if funds.len() == 1 {
        if funds[0].amount == 0 {
            Err(PaymentError::NoFunds)
        } else if funds[0].denom@ != denom@ {
            Err(PaymentError::MissingDenom(denom))
        } else {
            Ok(funds[0].amount)
        }
    } else {
        Err(PaymentError::MultipleDenoms)
    }
}

/// Calls `cw0::must_pay` on a message that carries `funds`. It fails with
/// `NoFunds` without a coin or with a single coin of amount zero, with
/// `MultipleDenoms` for two coins or more, and with `MissingDenom`, which
/// carries the denomination asked for, where the single coin is of another;
/// else it returns the coin's amount.
#[verifier::external_body]
pub(crate) fn must_pay(funds: &Vec<Coin>, denom: &String) -> (paid: Result<u128, PaymentError>)
    ensures
        paid == spec_must_pay(funds@, *denom),
{
    let sent = funds.iter().map(|c| cosmwasm_std::Coin::new(c.amount, c.denom.clone())).collect();
    let info = cosmwasm_std::MessageInfo { sender: cosmwasm_std::Addr::unchecked(""), funds: sent };
    match cw0::must_pay(&info, denom) {
        Ok(amount) => Ok(amount.u128()),
        Err(cw0::PaymentError::MissingDenom(d)) => Err(PaymentError::MissingDenom(d)),
        Err(cw0::PaymentError::ExtraDenom(d)) => Err(PaymentError::ExtraDenom(d)),
        Err(cw0::PaymentError::MultipleDenoms {}) => Err(PaymentError::MultipleDenoms),
        Err(cw0::PaymentError::NoFunds {}) => Err(PaymentError::NoFunds),
        Err(cw0::PaymentError::NonPayable {}) => Err(PaymentError::NonPayable),
    }
}

/// Refuses an action that accepts no funds where some were sent.
pub fn nonpayable(funds: &Vec<Coin>) -> (result: Result<(), PaymentError>)
    ensures
        result == (if funds@.len() == 0 {
            Ok::<(), PaymentError>(())
        } else {
            Err::<(), PaymentError>(PaymentError::NonPayable)
        }),
{
    if funds.len() == 0 {
        Ok(())
    } else {
        Err(PaymentError::NonPayable)
    }
}

} // verus!
