//! Error values returned by the game and reserve operations.

use vstd::prelude::*;

verus! {

/// Failures of the arithmetic and data layer.
#[derive(Clone, Debug, PartialEq, Eq)]
pub enum StdError {
    /// An amount left the range of 128-bit unsigned integers.
    Overflow,
    /// A division by zero was requested.
    DivideByZero,
    /// A decimal string could not be parsed.
    ParseDecimal,
    /// A byte string did not have the expected length.
    InvalidDataSize { expected: u64, actual: u64 },
    /// A value that an action needs was never stored.
    NotFound,
}

/// Failures of the payment attached to an action.
#[derive(Clone, Debug, PartialEq, Eq)]
pub enum PaymentError {
    /// The single coin sent is not of the expected denomination.
    MissingDenom(String),
    /// A coin of another denomination than the expected one was sent.
    ExtraDenom(String),
    /// More than one coin was sent.
    MultipleDenoms,
    /// No coin, or a coin of amount zero, was sent.
    NoFunds,
    /// Funds were sent to an action that accepts none.
    NonPayable,
}

/// Failures of a game or reserve action.
#[derive(Clone, Debug, PartialEq, Eq)]
pub enum ContractError {
    Std(StdError),
    Payment(PaymentError),
    Unauthorized,
    AdvantageValueOutOfRange,
    NewRandomnessNotYetAvailable,
    BetAmountExceedsLimit { current_bet: u128, total_bet: u128, total_bet_limit: u128 },
    InvalidBetPosition { current_position: u8, min_position: u8, max_position: u8 },
    MaxAmountOfBetsThisRound { bets_this_round: u128, max_bets_per_round: u128 },
    RoundEnded,
    GameStopped,
    InvalidReplyId,
}

impl ContractError {
    /// The message shown to a user for this error.
    pub fn message(&self) -> (text: &'static str)
        ensures
            text@ == Self::message_of(*self)@,
    {
        match self {
            ContractError::Std(_) => "Arithmetic or data error",
            ContractError::Payment(_) => "Payment error",
            ContractError::Unauthorized => "Unauthorized",
            ContractError::AdvantageValueOutOfRange => "Advantage value is out of range",
            ContractError::NewRandomnessNotYetAvailable => "New randomness round is not available yet",
            ContractError::BetAmountExceedsLimit { .. } => "Bet amount exceeds limit",
            ContractError::InvalidBetPosition { .. } => "Invalid bet position",
            ContractError::MaxAmountOfBetsThisRound { .. } => "Max amount of bets this round",
            ContractError::RoundEnded => "Round ended",
            ContractError::GameStopped => "Game stopped",
            ContractError::InvalidReplyId => "InvalidReplyId",
        }
    }

    /// The message that belongs to each error.
    pub open spec fn message_of(e: ContractError) -> &'static str {
        match e {
            ContractError::Std(_) => "Arithmetic or data error",
            ContractError::Payment(_) => "Payment error",
            ContractError::Unauthorized => "Unauthorized",
            ContractError::AdvantageValueOutOfRange => "Advantage value is out of range",
            ContractError::NewRandomnessNotYetAvailable => "New randomness round is not available yet",
            ContractError::BetAmountExceedsLimit { .. } => "Bet amount exceeds limit",
            ContractError::InvalidBetPosition { .. } => "Invalid bet position",
            ContractError::MaxAmountOfBetsThisRound { .. } => "Max amount of bets this round",
            ContractError::RoundEnded => "Round ended",
            ContractError::GameStopped => "Game stopped",
            ContractError::InvalidReplyId => "InvalidReplyId",
        }
    }
}

} // verus!
