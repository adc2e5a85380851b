//! Creating a game and changing its parameters. Only the owner and the
//! governance contract may change anything, and no such action accepts funds.

use vstd::prelude::*;
use crate::decimal::{decimal_from_str, Decimal, DECIMAL_FRACTIONAL};
use crate::error::{ContractError, PaymentError, StdError};
use crate::game::GameKind;
use crate::ledger::BetLedger;
use crate::payment::{nonpayable, Coin};
use crate::rewards::RewardBook;
use crate::settlement::{CasinoConfig, GameState, LatestRandomness};
use crate::tax::TaxPolicy;
use crate::timer::RoundTimer;
use crate::treasury::{spec_treasury_action, TreasuryAction};

verus! {

/// The parameters a game is created with.
#[derive(Clone, Debug, PartialEq, Eq)]
pub struct InstantiateMsg {
    pub gov_contract_address: String,
    pub native_denom: String,
    pub advantage_value: String,
    pub win_tax: String,
    pub max_number_of_bets: u64,
    pub max_betting_ratio: u64,
    pub round_duration: u64,
    pub max_cashflow: u128,
    pub terrand_address: String,
    pub reserve_address: String,
}

/// The parameters to replace, each where it is given.
#[derive(Clone, Debug, PartialEq, Eq)]
pub struct ConfigChange {
    pub native_denom: Option<String>,
    pub advantage_value: Option<String>,
    /// The share of a win that is left after the tax on wins, taken as it is.
    pub win_tax: Option<String>,
    pub max_number_of_bets: Option<u64>,
    pub max_betting_ratio: Option<u64>,
    pub round_duration: Option<u64>,
    pub max_cashflow: Option<u128>,
    pub terrand_address: Option<String>,
    pub reserve_address: Option<String>,
    pub gov_contract_address: Option<String>,
}

/// A text where one is given, else the text in place.
pub open spec fn text_or(given: Option<String>, in_place: String) -> String {
    match given {
        Some(text) => text,
        None => in_place,
    }
}

/// A number where one is given, else the number in place.
pub open spec fn number_or(given: Option<u64>, in_place: u64) -> u64 {
    match given {
        Some(number) => number,
        None => in_place,
    }
}

/// What `win_coefficients` returns for each outcome of parsing the advantage:
/// the single coefficient of the coin flip, or the table of the dice.
pub open spec fn is_coefficients_of_parsed(
    kind: GameKind,
    parsed: Option<u128>,
    result: Result<Vec<Decimal>, ContractError>,
) -> bool {
    match kind {
        GameKind::DoubleDice => crate::doubledice::is_table_of_parsed(parsed, result),
        GameKind::Coinflip => match result {
            Ok(coefficients) => coefficients@.len() == 1
                && crate::coinflip::is_coefficient_of_parsed(
                parsed,
                Ok::<Decimal, ContractError>(coefficients@[0]),
            ),
            Err(e) => crate::coinflip::is_coefficient_of_parsed(
                parsed,
                Err::<Decimal, ContractError>(e),
            ),
        },
    }
}

/// Whether a game has win coefficients for the advantage that a text was
/// parsed to.
pub open spec fn advantage_accepted(kind: GameKind, parsed: Option<u128>) -> bool {
    match parsed {
        Some(atomics) => match kind {
            GameKind::DoubleDice => crate::doubledice::valid_advantage(Decimal { atomics }),
            GameKind::Coinflip => crate::coinflip::valid_advantage(Decimal { atomics }),
        },
        None => false,
    }
}

/// The win coefficients of a game for a house advantage written as a decimal
/// string.
pub fn win_coefficients(kind: GameKind, advantage_value: &str) -> (result: Result<
    Vec<Decimal>,
    ContractError,
>)
    ensures
        is_coefficients_of_parsed(kind, decimal_from_str(advantage_value@), result),
        result matches Ok(coefficients) ==> coefficients@.len() == kind.spec_coefficient_count(),
        result.is_ok() == advantage_accepted(kind, decimal_from_str(advantage_value@)),
{
    match kind {
        GameKind::DoubleDice => crate::doubledice::recalculate_win_coefficients(advantage_value),
        GameKind::Coinflip => match crate::coinflip::recalculate_win_coefficients(advantage_value) {
            Ok(coefficient) => {
                let mut coefficients: Vec<Decimal> = Vec::new();
                coefficients.push(coefficient);
                Ok(coefficients)
            },
            Err(e) => Err(e),
        },
    }
}

/// The share of a win that is left after the tax on wins, for each outcome of
/// parsing the tax: one minus the tax, which must not exceed one.
pub open spec fn spec_win_tax(parsed: Option<u128>) -> Result<Decimal, ContractError> {
    match parsed {
        None => Err(ContractError::Std(StdError::ParseDecimal)),
        Some(tax) => if tax <= DECIMAL_FRACTIONAL {
            Ok(Decimal { atomics: (DECIMAL_FRACTIONAL - tax) as u128 })
        } else {
            Err(ContractError::Std(StdError::Overflow))
        },
    }
}

/// The share of a win that is left after the tax on wins, for a parsed tax.
pub fn win_tax_from(parsed: Result<Decimal, StdError>) -> (result: Result<Decimal, ContractError>)
    ensures
        parsed matches Ok(tax) ==> result == spec_win_tax(Some(tax.atomics)),
        parsed matches Err(e) ==> result == Err::<Decimal, ContractError>(ContractError::Std(e)),
{
    match parsed {
        Ok(tax) => match Decimal::one().checked_sub(tax) {
            Some(left) => Ok(left),
            None => Err(ContractError::Std(StdError::Overflow)),
        },
        Err(e) => Err(ContractError::Std(e)),
    }
}

/// The share of a win that is left after a tax written as a decimal string.
pub fn win_tax_multiplier(win_tax: &str) -> (result: Result<Decimal, ContractError>)
    ensures
        result == spec_win_tax(decimal_from_str(win_tax@)),
{
    win_tax_from(Decimal::from_str(win_tax))
}

impl GameState {
    /// Whether `who` is the owner or the governance contract.
    pub open spec fn is_admin(&self, who: Seq<char>) -> bool {
        who == self.owner@ || who == self.config.gov_contract_address@
    }

    /// Why an administrative action is refused before it looks at its
    /// arguments, or `None` where it is not.
    pub open spec fn admin_error(&self, sender: Seq<char>, funds: Seq<Coin>) -> Option<
        ContractError,
    > {
        if funds.len() != 0 {
            Some(ContractError::Payment(PaymentError::NonPayable))
        } else if !self.is_admin(sender) {
            Some(ContractError::Unauthorized)
        } else {
            None
        }
    }

    /// Admits the owner and the governance contract, nobody else.
    pub fn only_owner(&self, sender: &String) -> (result: Result<(), ContractError>)
        ensures
            result == (if self.is_admin(sender@) {
                Ok::<(), ContractError>(())
            } else {
                Err::<(), ContractError>(ContractError::Unauthorized)
            }),
    {
        if *sender == self.owner || *sender == self.config.gov_contract_address {
            Ok(())
        } else {
            Err(ContractError::Unauthorized)
        }
    }

    /// The checks that every administrative action starts with.
    pub fn check_admin(&self, sender: &String, funds: &Vec<Coin>) -> (result: Result<
        (),
        ContractError,
    >)
        ensures
            result == (match self.admin_error(sender@, funds@) {
                Some(e) => Err::<(), ContractError>(e),
                None => Ok::<(), ContractError>(()),
            }),
    {
        match nonpayable(funds) {
            Ok(()) => self.only_owner(sender),
            Err(e) => Err(ContractError::Payment(e)),
        }
    }

    /// A new game, owned by `owner`, whose round 0 starts at `now`.
    pub fn instantiate(kind: GameKind, owner: String, funds: &Vec<Coin>, msg: InstantiateMsg, now: u64) -> (result:
        Result<GameState, ContractError>)
        ensures
            funds@.len() != 0 ==> result == Err::<GameState, ContractError>(
                ContractError::Payment(PaymentError::NonPayable),
            ),
            match result {
                Ok(state) => {
                    &&& funds@.len() == 0
                    &&& state.wf()
                    &&& state.kind == kind
                    &&& state.owner == owner
                    &&& state.config.native_denom == msg.native_denom
                    &&& is_coefficients_of_parsed(
                        kind,
                        decimal_from_str(msg.advantage_value@),
                        Ok::<Vec<Decimal>, ContractError>(state.config.win_coefficents),
                    )
                    &&& Ok::<Decimal, ContractError>(state.config.win_tax) == spec_win_tax(
                        decimal_from_str(msg.win_tax@),
                    )
                    &&& state.config.max_number_of_bets == msg.max_number_of_bets
                    &&& state.config.max_betting_ratio == msg.max_betting_ratio
                    &&& state.config.max_cashflow == msg.max_cashflow
                    &&& state.config.terrand_address == msg.terrand_address
                    &&& state.config.reserve_address == msg.reserve_address
                    &&& state.config.gov_contract_address == msg.gov_contract_address
                    &&& state.timer == (RoundTimer {
                        round_duration: msg.round_duration,
                        current_round_start_time: now,
                        current_round: 0,
                        stopped: false,
                        drand_round: 0,
                    })
                    &&& state.last_randomness_round == 0
                    &&& state.ledger.entries@.len() == 0
                    &&& state.outcomes_history@.len() == 0
                    &&& state.rewards.total == 0
                    &&& state.rewards.players@.len() == 0
                },
                Err(e) => funds@.len() == 0 ==> (if advantage_accepted(
                    kind,
                    decimal_from_str(msg.advantage_value@),
                ) {
                    Err::<Decimal, ContractError>(e) == spec_win_tax(decimal_from_str(msg.win_tax@))
                } else {
                    is_coefficients_of_parsed(
                        kind,
                        decimal_from_str(msg.advantage_value@),
                        Err::<Vec<Decimal>, ContractError>(e),
                    )
                }),
            },
    {
        match nonpayable(funds) {
            Ok(()) => {},
            Err(e) => { return Err(ContractError::Payment(e)); },
        }
        let win_coefficents = match win_coefficients(kind, msg.advantage_value.as_str()) {
            Ok(c) => c,
            Err(e) => { return Err(e); },
        };
        let win_tax = match win_tax_multiplier(msg.win_tax.as_str()) {
            Ok(t) => t,
            Err(e) => { return Err(e); },
        };
        let config = CasinoConfig {
            native_denom: msg.native_denom,
            win_coefficents,
            win_tax,
            max_number_of_bets: msg.max_number_of_bets,
            max_betting_ratio: msg.max_betting_ratio,
            max_cashflow: msg.max_cashflow,
            terrand_address: msg.terrand_address,
            reserve_address: msg.reserve_address,
            gov_contract_address: msg.gov_contract_address,
        };
        Ok(
            GameState {
                kind,
                owner,
                config,
                timer: RoundTimer::new(msg.round_duration, now),
                last_randomness_round: 0,
                ledger: BetLedger::new(),
                outcomes_history: Vec::new(),
                rewards: RewardBook::new(),
            },
        )
    }

    /// Whether `after` and `result` are what a change of the house advantage
    /// leaves and returns, for each outcome of parsing the advantage.
    pub open spec fn is_advantage_change(
        &self,
        after: GameState,
        sender: Seq<char>,
        funds: Seq<Coin>,
        parsed: Option<u128>,
        result: Result<(), ContractError>,
    ) -> bool {
        &&& after.wf()
        &&& self.admin_error(sender, funds) matches Some(e) ==> result == Err::<(), ContractError>(e)
        &&& match result {
            Ok(()) => {
                &&& self.admin_error(sender, funds).is_none()
                &&& is_coefficients_of_parsed(
                    self.kind,
                    parsed,
                    Ok::<Vec<Decimal>, ContractError>(after.config.win_coefficents),
                )
                &&& after == (GameState {
                    config: CasinoConfig {
                        win_coefficents: after.config.win_coefficents,
                        ..self.config
                    },
                    ..*self
                })
            },
            Err(e) => {
                &&& after == *self
                &&& self.admin_error(sender, funds).is_none()
                    ==> is_coefficients_of_parsed(
                    self.kind,
                    parsed,
                    Err::<Vec<Decimal>, ContractError>(e),
                )
            },
        }
    }

    /// Replaces the whole coefficient table by that of a new house
    /// advantage. A change that fails changes nothing.
    pub fn execute_change_advantage_value(&mut self, sender: &String, funds: &Vec<Coin>, advantage_value: &str) -> (result:
        Result<(), ContractError>)
        requires
            old(self).wf(),
        ensures
            old(self).is_advantage_change(
                *final(self),
                sender@,
                funds@,
                decimal_from_str(advantage_value@),
                result,
            ),
    {
        match self.check_admin(sender, funds) {
            Ok(()) => {},
            Err(e) => { return Err(e); },
        }
        match win_coefficients(self.kind, advantage_value) {
            Ok(coefficients) => {
                self.config.win_coefficents = coefficients;
                Ok(())
            },
            Err(e) => Err(e),
        }
    }

    /// What an administrative action that parses a tax returns.
    pub open spec fn win_tax_change(&self, sender: Seq<char>, funds: Seq<Coin>, parsed: Option<u128>) -> Result<
        Decimal,
        ContractError,
    > {
        match self.admin_error(sender, funds) {
            Some(e) => Err(e),
            None => spec_win_tax(parsed),
        }
    }

    /// Sets the tax on wins. A change that fails changes nothing.
    pub fn execute_change_win_tax(&mut self, sender: &String, funds: &Vec<Coin>, win_tax: &str) -> (result:
        Result<(), ContractError>)
        ensures
            match old(self).win_tax_change(sender@, funds@, decimal_from_str(win_tax@)) {
                Ok(left) => result == Ok::<(), ContractError>(()) && *final(self) == (GameState {
                    config: CasinoConfig { win_tax: left, ..old(self).config },
                    ..*old(self)
                }),
                Err(e) => result == Err::<(), ContractError>(e) && *final(self) == *old(self),
            },
    {
        match self.check_admin(sender, funds) {
            Ok(()) => {},
            Err(e) => { return Err(e); },
        }
        match win_tax_multiplier(win_tax) {
            Ok(left) => {
                self.config.win_tax = left;
                Ok(())
            },
            Err(e) => Err(e),
        }
    }

    /// Sets the number of bets a player may place in a round.
    pub fn execute_change_max_number_of_bets(&mut self, sender: &String, funds: &Vec<Coin>, number_of_bets: u64) -> (result:
        Result<(), ContractError>)
        ensures
            match old(self).admin_error(sender@, funds@) {
                None => result == Ok::<(), ContractError>(()) && *final(self) == (GameState {
                    config: CasinoConfig { max_number_of_bets: number_of_bets, ..old(self).config },
                    ..*old(self)
                }),
                Some(e) => result == Err::<(), ContractError>(e) && *final(self) == *old(self),
            },
    {
        match self.check_admin(sender, funds) {
            Ok(()) => {
                self.config.max_number_of_bets = number_of_bets;
                Ok(())
            },
            Err(e) => Err(e),
        }
    }

    /// Sets the divisor of the reserve's balance that bounds the exposure.
    pub fn execute_change_max_betting_ratio(&mut self, sender: &String, funds: &Vec<Coin>, ratio: u64) -> (result:
        Result<(), ContractError>)
        ensures
            match old(self).admin_error(sender@, funds@) {
                None => result == Ok::<(), ContractError>(()) && *final(self) == (GameState {
                    config: CasinoConfig { max_betting_ratio: ratio, ..old(self).config },
                    ..*old(self)
                }),
                Some(e) => result == Err::<(), ContractError>(e) && *final(self) == *old(self),
            },
    {
        match self.check_admin(sender, funds) {
            Ok(()) => {
                self.config.max_betting_ratio = ratio;
                Ok(())
            },
            Err(e) => Err(e),
        }
    }

    /// Sets the surplus above which a settlement pays into the reserve.
    pub fn execute_change_max_cashflow(&mut self, sender: &String, funds: &Vec<Coin>, cashflow: u128) -> (result:
        Result<(), ContractError>)
        ensures
            match old(self).admin_error(sender@, funds@) {
                None => result == Ok::<(), ContractError>(()) && *final(self) == (GameState {
                    config: CasinoConfig { max_cashflow: cashflow, ..old(self).config },
                    ..*old(self)
                }),
                Some(e) => result == Err::<(), ContractError>(e) && *final(self) == *old(self),
            },
    {
        match self.check_admin(sender, funds) {
            Ok(()) => {
                self.config.max_cashflow = cashflow;
                Ok(())
            },
            Err(e) => Err(e),
        }
    }

    /// Stops the game for good.
    pub fn execute_stop_game(&mut self, sender: &String, funds: &Vec<Coin>) -> (result: Result<
        (),
        ContractError,
    >)
        ensures
            match old(self).admin_error(sender@, funds@) {
                None => result == Ok::<(), ContractError>(()) && *final(self) == (GameState {
                    timer: RoundTimer { stopped: true, ..old(self).timer },
                    ..*old(self)
                }),
                Some(e) => result == Err::<(), ContractError>(e) && *final(self) == *old(self),
            },
    {
        match self.check_admin(sender, funds) {
            Ok(()) => {
                self.timer.stop();
                Ok(())
            },
            Err(e) => Err(e),
        }
    }

    /// Why a change of the round's duration fails, or `None` where it
    /// succeeds: the round in flight has to be settled first.
    pub open spec fn duration_change_error(
        &self,
        sender: Seq<char>,
        funds: Seq<Coin>,
        randomness: LatestRandomness,
    ) -> Option<ContractError> {
        match self.admin_error(sender, funds) {
            Some(e) => Some(e),
            None => self.settlement_error(randomness),
        }
    }

    /// Whether `result` is what a change of the round's duration returns:
    /// the settled state with the new duration and the settlement's message
    /// to the reserve, or the error.
    pub open spec fn is_duration_change(
        &self,
        sender: Seq<char>,
        funds: Seq<Coin>,
        now: u64,
        round_duration: u64,
        randomness: LatestRandomness,
        contract_balance: u128,
        tax: TaxPolicy,
        result: Result<(GameState, TreasuryAction), ContractError>,
    ) -> bool {
        match result {
            Ok((next, action)) => {
                &&& self.duration_change_error(sender, funds, randomness).is_none()
                &&& next.wf()
                &&& next.timer.round_duration == round_duration
                &&& self.settled_into(
                    GameState {
                        timer: RoundTimer {
                            round_duration: self.timer.round_duration,
                            ..next.timer
                        },
                        ..next
                    },
                    now,
                    randomness,
                )
                &&& action == spec_treasury_action(
                    next.rewards.total,
                    contract_balance,
                    self.config.max_cashflow,
                    tax,
                )
            },
            Err(e) => self.duration_change_error(sender, funds, randomness) == Some(e),
        }
    }

    /// Settles the round in flight, whatever its status, and sets the
    /// duration of the rounds that follow. The result carries the
    /// settlement's message to the reserve. A change that fails yields no
    /// state.
    pub fn execute_change_round_duration(
        self,
        sender: &String,
        funds: &Vec<Coin>,
        now: u64,
        round_duration: u64,
        randomness: &LatestRandomness,
        contract_balance: u128,
        tax: &TaxPolicy,
    ) -> (result: Result<(GameState, TreasuryAction), ContractError>)
        requires
            self.wf(),
        ensures
            self.is_duration_change(
                sender@,
                funds@,
                now,
                round_duration,
                *randomness,
                contract_balance,
                *tax,
                result,
            ),
    {
        match self.check_admin(sender, funds) {
            Ok(()) => {},
            Err(e) => { return Err(e); },
        }
        let (mut state, action) = match self.end_round(now, randomness, contract_balance, tax) {
            Ok(settled) => settled,
            Err(e) => { return Err(e); },
        };
        let ghost settled = state;
        state.timer.update_duration(round_duration);
        proof {
            let back = GameState {
                timer: RoundTimer { round_duration: self.timer.round_duration, ..state.timer },
                ..state
            };
            assert(back == settled);
        }
        Ok((state, action))
    }

    /// The parameters after a change, given the coefficient table and the
    /// share left after the tax on wins that the change led to.
    pub open spec fn changed_config(
        &self,
        change: ConfigChange,
        win_coefficents: Vec<Decimal>,
        win_tax: Decimal,
    ) -> CasinoConfig {
        CasinoConfig {
            native_denom: text_or(change.native_denom, self.config.native_denom),
            win_coefficents,
            win_tax,
            max_number_of_bets: number_or(
                change.max_number_of_bets,
                self.config.max_number_of_bets,
            ),
            max_betting_ratio: number_or(change.max_betting_ratio, self.config.max_betting_ratio),
            max_cashflow: match change.max_cashflow {
                Some(cashflow) => cashflow,
                None => self.config.max_cashflow,
            },
            terrand_address: text_or(change.terrand_address, self.config.terrand_address),
            reserve_address: text_or(change.reserve_address, self.config.reserve_address),
            gov_contract_address: text_or(
                change.gov_contract_address,
                self.config.gov_contract_address,
            ),
        }
    }

    /// Whether a table and a share are what a change leads to: those in
    /// place where the change gives none, else those that the texts given
    /// stand for.
    pub open spec fn is_changed_payout(
        &self,
        change: ConfigChange,
        win_coefficents: Vec<Decimal>,
        win_tax: Decimal,
    ) -> bool {
        &&& match change.advantage_value {
            Some(text) => is_coefficients_of_parsed(
                self.kind,
                decimal_from_str(text@),
                Ok::<Vec<Decimal>, ContractError>(win_coefficents),
            ),
            None => win_coefficents == self.config.win_coefficents,
        }
        &&& match change.win_tax {
            Some(text) => decimal_from_str(text@) == Some(win_tax.atomics),
            None => win_tax == self.config.win_tax,
        }
    }

    /// Whether a change gives no advantage or one that the game has win
    /// coefficients for.
    pub open spec fn change_advantage_accepted(&self, change: ConfigChange) -> bool {
        match change.advantage_value {
            Some(text) => advantage_accepted(self.kind, decimal_from_str(text@)),
            None => true,
        }
    }

    /// Whether a change gives no share or one that is a decimal.
    pub open spec fn change_win_tax_accepted(&self, change: ConfigChange) -> bool {
        match change.win_tax {
            Some(text) => decimal_from_str(text@).is_some(),
            None => true,
        }
    }

    /// Whether `e` is the error of a change whose texts cannot be taken: that
    /// of the advantage, or else that of the share.
    pub open spec fn is_change_text_error(&self, change: ConfigChange, e: ContractError) -> bool {
        if !self.change_advantage_accepted(change) {
            change.advantage_value matches Some(text) && is_coefficients_of_parsed(
                self.kind,
                decimal_from_str(text@),
                Err::<Vec<Decimal>, ContractError>(e),
            )
        } else {
            !self.change_win_tax_accepted(change) && e == ContractError::Std(
                StdError::ParseDecimal,
            )
        }
    }

    /// Whether `result` is what a change of the whole configuration returns:
    /// the state with the parameters replaced and, where the change gives a
    /// duration, settled and with that duration, together with the
    /// settlement's message to the reserve; or the error.
    pub open spec fn is_config_change_result(
        &self,
        sender: Seq<char>,
        funds: Seq<Coin>,
        now: u64,
        change: ConfigChange,
        randomness: LatestRandomness,
        contract_balance: u128,
        tax: TaxPolicy,
        result: Result<(GameState, TreasuryAction), ContractError>,
    ) -> bool {
        &&& self.admin_error(sender, funds) matches Some(e) ==> result == Err::<
            (GameState, TreasuryAction),
            ContractError,
        >(e)
        &&& match result {
            Ok((next, action)) => {
                let interim = GameState {
                    config: self.changed_config(
                        change,
                        next.config.win_coefficents,
                        next.config.win_tax,
                    ),
                    ..*self
                };
                &&& self.admin_error(sender, funds).is_none()
                &&& self.is_changed_payout(change, next.config.win_coefficents, next.config.win_tax)
                &&& next.wf()
                &&& match change.round_duration {
                    None => next == interim && action == TreasuryAction::Nothing,
                    Some(duration) => interim.is_duration_change(
                        sender,
                        funds,
                        now,
                        duration,
                        randomness,
                        contract_balance,
                        tax,
                        Ok::<(GameState, TreasuryAction), ContractError>((next, action)),
                    ),
                }
            },
            Err(e) => self.admin_error(sender, funds).is_none() ==> (if
                !self.change_advantage_accepted(change) || !self.change_win_tax_accepted(change) {
                self.is_change_text_error(change, e)
            } else {
                change.round_duration matches Some(duration) && exists|
                    win_coefficents: Vec<Decimal>,
                    win_tax: Decimal,
                |
                    #![trigger self.is_changed_payout(change, win_coefficents, win_tax)]
                    self.is_changed_payout(change, win_coefficents, win_tax) && (GameState {
                        config: self.changed_config(change, win_coefficents, win_tax),
                        ..*self
                    }).duration_change_error(sender, funds, randomness) == Some(e)
            }),
        }
    }

    /// Replaces every parameter that the change gives, and then, where it
    /// gives a duration, settles the round in flight and sets the duration,
    /// for which the sender has to be the owner or the governance contract
    /// of the parameters as changed. The result carries the settlement's
    /// message to the reserve. A change that fails yields no state.
    pub fn execute_change_config(
        self,
        sender: &String,
        funds: &Vec<Coin>,
        now: u64,
        change: ConfigChange,
        randomness: &LatestRandomness,
        contract_balance: u128,
        tax: &TaxPolicy,
    ) -> (result: Result<(GameState, TreasuryAction), ContractError>)
        requires
            self.wf(),
        ensures
            self.is_config_change_result(
                sender@,
                funds@,
                now,
                change,
                *randomness,
                contract_balance,
                *tax,
                result,
            ),
    {
        match self.check_admin(sender, funds) {
            Ok(()) => {},
            Err(e) => { return Err(e); },
        }
        let mut state = self;
        match change.advantage_value {
            Some(text) => {
                match win_coefficients(state.kind, text.as_str()) {
                    Ok(coefficients) => {
                        state.config.win_coefficents = coefficients;
                    },
                    Err(e) => { return Err(e); },
                }
            },
            None => {},
        }
        match change.win_tax {
            Some(text) => {
                match Decimal::from_str(text.as_str()) {
                    Ok(left) => {
                        state.config.win_tax = left;
                    },
                    Err(e) => { return Err(ContractError::Std(e)); },
                }
            },
            None => {},
        }
        match change.native_denom {
            Some(text) => {
                state.config.native_denom = text;
            },
            None => {},
        }
        match change.max_number_of_bets {
            Some(number) => {
                state.config.max_number_of_bets = number;
            },
            None => {},
        }
        match change.max_betting_ratio {
            Some(number) => {
                state.config.max_betting_ratio = number;
            },
            None => {},
        }
        match change.max_cashflow {
            Some(cashflow) => {
                state.config.max_cashflow = cashflow;
            },
            None => {},
        }
        match change.terrand_address {
            Some(text) => {
                state.config.terrand_address = text;
            },
            None => {},
        }
        match change.reserve_address {
            Some(text) => {
                state.config.reserve_address = text;
            },
            None => {},
        }
        match change.gov_contract_address {
            Some(text) => {
                state.config.gov_contract_address = text;
            },
            None => {},
        }
        assert(self.is_changed_payout(change, state.config.win_coefficents, state.config.win_tax));
        assert(state == (GameState {
            config: self.changed_config(
                change,
                state.config.win_coefficents,
                state.config.win_tax,
            ),
            ..self
        }));
        match change.round_duration {
            Some(duration) => state.execute_change_round_duration(
                sender,
                funds,
                now,
                duration,
                randomness,
                contract_balance,
                tax,
            ),
            None => Ok((state, TreasuryAction::Nothing)),
        }
    }

    /// What draining the game pays into the reserve: the whole balance less
    /// tax.
    pub fn execute_drain_game(&self, sender: &String, funds: &Vec<Coin>, contract_balance: u128, tax: &TaxPolicy) -> (result:
        Result<u128, ContractError>)
        ensures
            result == (match self.admin_error(sender@, funds@) {
                Some(e) => Err::<u128, ContractError>(e),
                None => Ok::<u128, ContractError>(tax.spec_after_tax(contract_balance)),
            }),
    {
        match self.check_admin(sender, funds) {
            Ok(()) => {},
            Err(e) => { return Err(e); },
        }
        Ok(tax.deduct_tax(contract_balance))
    }
}

} // verus!
