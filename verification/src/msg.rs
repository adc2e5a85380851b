//! The answers that queries give.

use vstd::prelude::*;
use crate::timer::RoundStatus;

verus! {

/// The order in which a listing is given.
#[derive(Clone, Copy, Debug, PartialEq, Eq, Structural)]
pub enum OrderBy {
    Asc,
    Desc,
}

/// The message of a migration. It carries nothing.
#[derive(Clone, Copy, Debug, PartialEq, Eq, Structural)]
pub struct MigrateMsg {}

/// The win coefficient of the coin flip, as a decimal string.
#[derive(Clone, Debug, PartialEq, Eq)]
pub struct WinCoefficients {
    pub coefficients: String,
}

/// The win coefficients of the dice game, as decimal strings.
#[derive(Clone, Debug, PartialEq, Eq)]
pub struct WinCoefficientTable {
    pub coefficients: Vec<String>,
}

/// What a player can claim.
#[derive(Clone, Copy, Debug, PartialEq, Eq, Structural)]
pub struct Rewards {
    pub rewards: u128,
}

/// The sum of what all players can claim.
#[derive(Clone, Copy, Debug, PartialEq, Eq, Structural)]
pub struct TotalRewards {
    pub total_rewards: u128,
}

/// The current round, its status and the randomness round bound last.
#[derive(Clone, Copy, Debug, PartialEq, Eq, Structural)]
pub struct CurrentRound {
    pub round: u64,
    pub status: RoundStatus,
    pub drand_round: u64,
}

/// The bets of one player in one round, or `None` where there are none.
#[derive(Clone, Debug, PartialEq, Eq)]
pub struct Bets {
    pub round: u64,
    pub bets: Option<Vec<(u8, u128)>>,
}

/// The outcome of every settled round.
#[derive(Clone, Debug, PartialEq, Eq)]
pub struct OutcomeHistory {
    pub outcomes: Vec<(u64, u8)>,
}

/// The most that may still be wagered.
#[derive(Clone, Copy, Debug, PartialEq, Eq, Structural)]
pub struct BettingLimit {
    pub limit: u128,
}

/// The reserve's whole balance in native currency.
#[derive(Clone, Copy, Debug, PartialEq, Eq, Structural)]
pub struct CurrentBalance {
    pub balance: u128,
}

/// The balance above which the reserve invests.
#[derive(Clone, Copy, Debug, PartialEq, Eq, Structural)]
pub struct Threshold {
    pub threshold: u128,
}

/// The games that the reserve serves.
#[derive(Clone, Debug, PartialEq, Eq)]
pub struct Games {
    pub games: Vec<String>,
}

} // verus!
