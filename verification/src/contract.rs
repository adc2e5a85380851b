//! The commands of a game, and the one function that carries each of them out.

use vstd::prelude::*;
use crate::admin::ConfigChange;
use crate::decimal::decimal_from_str;
use crate::error::ContractError;
use crate::payment::Coin;
use crate::settlement::{CasinoConfig, GameState, LatestRandomness};
use crate::tax::TaxPolicy;
use crate::timer::RoundTimer;
use crate::treasury::TreasuryAction;

verus! {

/// A command to a game.
#[derive(Clone, Debug, PartialEq, Eq)]
pub enum ExecuteMsg {
    ChangeAdwantageValue { advantage_value: String },
    ChangeWinTax { win_tax: String },
    ChangeMaxNumberOfBets { number_of_bets: u64 },
    ChangeMaxBettingRatio { ratio: u64 },
    ChangeRoundDuration { duration: u64 },
    ChangeMaxCashflow { cashflow: u128 },
    Bet { outcome: u8 },
    ReceiveRewards,
    DrainGame,
    StopGame,
    ChangeConfig { change: ConfigChange },
}

/// What a command is carried out with: the time, the sender and the funds
/// attached, and what the chain and the other contracts say at that time.
#[derive(Clone, Debug, PartialEq, Eq)]
pub struct CallContext {
    pub now: u64,
    pub sender: String,
    pub funds: Vec<Coin>,
    pub randomness: LatestRandomness,
    pub reserve_balance: u128,
    pub contract_balance: u128,
    pub tax: TaxPolicy,
}

/// The one message, if any, that a command sends.
#[derive(Clone, Copy, Debug, PartialEq, Eq, Structural)]
pub enum GameResponse {
    /// Nothing is sent.
    Nothing,
    /// The message of a settlement to the reserve.
    Reserve(TreasuryAction),
    /// `amount` is sent to the sender: their reward less tax.
    Rewards { amount: u128 },
}

impl GameState {
    /// Whether `result` is what a command returns: for each command, what
    /// the function that carries it out leaves and returns.
    pub open spec fn is_execute_result(
        &self,
        context: CallContext,
        msg: ExecuteMsg,
        result: Result<(GameState, GameResponse), ContractError>,
    ) -> bool {
        let sender = context.sender@;
        let funds = context.funds@;
        match msg {
            ExecuteMsg::ChangeAdwantageValue { advantage_value } => match result {
                Ok((next, response)) => response == GameResponse::Nothing
                    && self.is_advantage_change(
                    next,
                    sender,
                    funds,
                    decimal_from_str(advantage_value@),
                    Ok::<(), ContractError>(()),
                ),
                Err(e) => self.is_advantage_change(
                    *self,
                    sender,
                    funds,
                    decimal_from_str(advantage_value@),
                    Err::<(), ContractError>(e),
                ),
            },
            ExecuteMsg::ChangeWinTax { win_tax } => match self.win_tax_change(
                sender,
                funds,
                decimal_from_str(win_tax@),
            ) {
                Ok(left) => result == Ok::<(GameState, GameResponse), ContractError>(
                    (
                        GameState { config: CasinoConfig { win_tax: left, ..self.config }, ..*self },
                        GameResponse::Nothing,
                    ),
                ),
                Err(e) => result == Err::<(GameState, GameResponse), ContractError>(e),
            },
            ExecuteMsg::ChangeMaxNumberOfBets { number_of_bets } => self.is_config_change(
                sender,
                funds,
                CasinoConfig { max_number_of_bets: number_of_bets, ..self.config },
                result,
            ),
            ExecuteMsg::ChangeMaxBettingRatio { ratio } => self.is_config_change(
                sender,
                funds,
                CasinoConfig { max_betting_ratio: ratio, ..self.config },
                result,
            ),
            ExecuteMsg::ChangeMaxCashflow { cashflow } => self.is_config_change(
                sender,
                funds,
                CasinoConfig { max_cashflow: cashflow, ..self.config },
                result,
            ),
            ExecuteMsg::StopGame => match self.admin_error(sender, funds) {
                None => result == Ok::<(GameState, GameResponse), ContractError>(
                    (
                        GameState { timer: RoundTimer { stopped: true, ..self.timer }, ..*self },
                        GameResponse::Nothing,
                    ),
                ),
                Some(e) => result == Err::<(GameState, GameResponse), ContractError>(e),
            },
            ExecuteMsg::ChangeRoundDuration { duration } => match result {
                Ok((next, response)) => response matches GameResponse::Reserve(action)
                    && self.is_duration_change(
                    sender,
                    funds,
                    context.now,
                    duration,
                    context.randomness,
                    context.contract_balance,
                    context.tax,
                    Ok::<(GameState, TreasuryAction), ContractError>((next, action)),
                ),
                Err(e) => self.is_duration_change(
                    sender,
                    funds,
                    context.now,
                    duration,
                    context.randomness,
                    context.contract_balance,
                    context.tax,
                    Err::<(GameState, TreasuryAction), ContractError>(e),
                ),
            },
            ExecuteMsg::ChangeConfig { change } => match result {
                Ok((next, response)) => response matches GameResponse::Reserve(action)
                    && self.is_config_change_result(
                    sender,
                    funds,
                    context.now,
                    change,
                    context.randomness,
                    context.contract_balance,
                    context.tax,
                    Ok::<(GameState, TreasuryAction), ContractError>((next, action)),
                ),
                Err(e) => self.is_config_change_result(
                    sender,
                    funds,
                    context.now,
                    change,
                    context.randomness,
                    context.contract_balance,
                    context.tax,
                    Err::<(GameState, TreasuryAction), ContractError>(e),
                ),
            },
            ExecuteMsg::DrainGame => match self.admin_error(sender, funds) {
                Some(e) => result == Err::<(GameState, GameResponse), ContractError>(e),
                None => result == Ok::<(GameState, GameResponse), ContractError>(
                    (
                        *self,
                        GameResponse::Reserve(
                            TreasuryAction::DepositFunds {
                                amount: context.tax.spec_after_tax(context.contract_balance),
                            },
                        ),
                    ),
                ),
            },
            ExecuteMsg::Bet { outcome } => match result {
                Ok((next, response)) => response matches GameResponse::Reserve(action)
                    && self.is_bet_result(
                    context.now,
                    sender,
                    funds,
                    outcome,
                    context.randomness,
                    context.reserve_balance,
                    context.contract_balance,
                    context.tax,
                    Ok::<(GameState, TreasuryAction), ContractError>((next, action)),
                ),
                Err(e) => self.is_bet_result(
                    context.now,
                    sender,
                    funds,
                    outcome,
                    context.randomness,
                    context.reserve_balance,
                    context.contract_balance,
                    context.tax,
                    Err::<(GameState, TreasuryAction), ContractError>(e),
                ),
            },
            ExecuteMsg::ReceiveRewards => match result {
                Ok((next, response)) => self.is_claim_result(
                    next,
                    sender,
                    funds,
                    context.tax,
                    Ok::<Option<u128>, ContractError>(
                        match response {
                            GameResponse::Rewards { amount } => Some(amount),
                            _ => None,
                        },
                    ),
                ) && !(response matches GameResponse::Reserve(_)),
                Err(e) => self.is_claim_result(
                    *self,
                    sender,
                    funds,
                    context.tax,
                    Err::<Option<u128>, ContractError>(e),
                ),
            },
        }
    }

    /// Whether `result` is what a change of one parameter returns: the state
    /// with the new parameters for the owner and the governance contract, a
    /// refusal for anybody else.
    pub open spec fn is_config_change(
        &self,
        sender: Seq<char>,
        funds: Seq<Coin>,
        config: CasinoConfig,
        result: Result<(GameState, GameResponse), ContractError>,
    ) -> bool {
        match self.admin_error(sender, funds) {
            None => result == Ok::<(GameState, GameResponse), ContractError>(
                (GameState { config, ..*self }, GameResponse::Nothing),
            ),
            Some(e) => result == Err::<(GameState, GameResponse), ContractError>(e),
        }
    }

    /// Carries out a command. A command that fails yields no state: nothing
    /// of it is kept.
    pub fn execute(self, context: &CallContext, msg: ExecuteMsg) -> (result: Result<
        (GameState, GameResponse),
        ContractError,
    >)
        requires
            self.wf(),
        ensures
            self.is_execute_result(*context, msg, result),
    {
        let mut state = self;
        match msg {
            ExecuteMsg::ChangeAdwantageValue { advantage_value } => {
                match state.execute_change_advantage_value(
                    &context.sender,
                    &context.funds,
                    advantage_value.as_str(),
                ) {
                    Ok(()) => Ok((state, GameResponse::Nothing)),
                    Err(e) => Err(e),
                }
            },
            ExecuteMsg::ChangeWinTax { win_tax } => {
                match state.execute_change_win_tax(&context.sender, &context.funds, win_tax.as_str()) {
                    Ok(()) => Ok((state, GameResponse::Nothing)),
                    Err(e) => Err(e),
                }
            },
            ExecuteMsg::ChangeMaxNumberOfBets { number_of_bets } => {
                match state.execute_change_max_number_of_bets(
                    &context.sender,
                    &context.funds,
                    number_of_bets,
                ) {
                    Ok(()) => Ok((state, GameResponse::Nothing)),
                    Err(e) => Err(e),
                }
            },
            ExecuteMsg::ChangeMaxBettingRatio { ratio } => {
                match state.execute_change_max_betting_ratio(&context.sender, &context.funds, ratio) {
                    Ok(()) => Ok((state, GameResponse::Nothing)),
                    Err(e) => Err(e),
                }
            },
            ExecuteMsg::ChangeMaxCashflow { cashflow } => {
                match state.execute_change_max_cashflow(&context.sender, &context.funds, cashflow) {
                    Ok(()) => Ok((state, GameResponse::Nothing)),
                    Err(e) => Err(e),
                }
            },
            ExecuteMsg::StopGame => {
                match state.execute_stop_game(&context.sender, &context.funds) {
                    Ok(()) => Ok((state, GameResponse::Nothing)),
                    Err(e) => Err(e),
                }
            },
            ExecuteMsg::ChangeRoundDuration { duration } => {
                match state.execute_change_round_duration(
                    &context.sender,
                    &context.funds,
                    context.now,
                    duration,
                    &context.randomness,
                    context.contract_balance,
                    &context.tax,
                ) {
                    Ok((next, action)) => Ok((next, GameResponse::Reserve(action))),
                    Err(e) => Err(e),
                }
            },
            ExecuteMsg::ChangeConfig { change } => {
                match state.execute_change_config(
                    &context.sender,
                    &context.funds,
                    context.now,
                    change,
                    &context.randomness,
                    context.contract_balance,
                    &context.tax,
                ) {
                    Ok((next, action)) => Ok((next, GameResponse::Reserve(action))),
                    Err(e) => Err(e),
                }
            },
            ExecuteMsg::DrainGame => {
                match state.execute_drain_game(
                    &context.sender,
                    &context.funds,
                    context.contract_balance,
                    &context.tax,
                ) {
                    Ok(amount) => Ok(
                        (state, GameResponse::Reserve(TreasuryAction::DepositFunds { amount })),
                    ),
                    Err(e) => Err(e),
                }
            },
            ExecuteMsg::Bet { outcome } => {
                match state.execute_bet(
                    context.now,
                    &context.sender,
                    &context.funds,
                    outcome,
                    &context.randomness,
                    context.reserve_balance,
                    context.contract_balance,
                    &context.tax,
                ) {
                    Ok((next, action)) => Ok((next, GameResponse::Reserve(action))),
                    Err(e) => Err(e),
                }
            },
            ExecuteMsg::ReceiveRewards => {
                match state.execute_receive_rewards(&context.sender, &context.funds, &context.tax) {
                    Ok(Some(amount)) => Ok((state, GameResponse::Rewards { amount })),
                    Ok(None) => Ok((state, GameResponse::Nothing)),
                    Err(e) => Err(e),
                }
            },
        }
    }
}

} // verus!
