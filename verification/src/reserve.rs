//! The reserve shared by the games: it covers what a game lacks, redeeming
//! from the yield market where its own balance does not suffice, and invests
//! what exceeds its threshold.

use vstd::prelude::*;
use crate::decimal::Decimal;
use crate::error::{ContractError, PaymentError, StdError};
use crate::msg::{CurrentBalance, Games, Threshold};
use crate::payment::{nonpayable, Coin};
use crate::tax::{checked_div_decimal, checked_div_floor, TaxPolicy};

verus! {

/// The parameters of the reserve.
#[derive(Clone, Debug, PartialEq, Eq)]
pub struct Config {
    pub anchor_market_address: String,
    pub gov_contract_address: String,
    pub anchor_token_address: String,
    pub threshold: u128,
    pub native_denom: String,
}

/// The request that waits for the yield market's reply. There is one slot: a
/// second request while one waits replaces it.
#[derive(Clone, Debug, PartialEq, Eq)]
pub struct PendingRequest {
    pub contract: String,
    pub amount: u128,
}

/// Everything the reserve keeps between two actions.
#[derive(Clone, Debug, PartialEq, Eq)]
pub struct ReserveState {
    pub owner: String,
    pub config: Config,
    /// The games that may ask for funds and pay funds in.
    pub games: Vec<String>,
    pub requesting_contract: Option<PendingRequest>,
    /// The balances recorded, oldest first; for one height the last counts.
    pub balance_history: Vec<(u64, u128)>,
}

/// The one message, if any, that an action of the reserve sends.
#[derive(Clone, Debug, PartialEq, Eq)]
pub enum ReserveAction {
    /// Nothing is sent.
    Nothing,
    /// `amount` of native currency is sent to the game `to`.
    SendToGame { to: String, amount: u128 },
    /// `amount` of the yield market's token is redeemed; the market's reply
    /// continues the request.
    RequestFromAnchor { amount: u128 },
    /// `amount` of native currency is paid into the yield market.
    SendToAnchor { amount: u128 },
}

/// A command to the reserve.
#[derive(Clone, Debug, PartialEq, Eq)]
pub enum ExecuteMsg {
    ChangeThreshold { threshold: u128 },
    AddGame { addr: String },
    RemoveGame { addr: String },
    RequestFunds { amount: u128 },
    DepositFunds,
}

/// What a command is carried out with: the sender and the funds attached,
/// the block height, and what the chain and the yield market say.
#[derive(Clone, Debug, PartialEq, Eq)]
pub struct CallContext {
    pub sender: String,
    pub funds: Vec<Coin>,
    pub block_height: u64,
    /// The reserve's balance of native currency.
    pub balance: u128,
    /// The reserve's whole balance, what it holds in the yield market
    /// included.
    pub total_balance: u128,
    pub tax: TaxPolicy,
    pub exchange_rate: Decimal,
}

/// Whether `who` is one of the games.
pub open spec fn is_game(games: Seq<String>, who: Seq<char>) -> bool {
    exists|i: int| 0 <= i < games.len() && (#[trigger] games[i])@ == who
}

/// The balance recorded last for `height`, if any was.
pub open spec fn balance_at(history: Seq<(u64, u128)>, height: u64) -> Option<u128>
    decreases history.len(),
{
    if history.len() == 0 {
        None
    } else if history.last().0 == height {
        Some(history.last().1)
    } else {
        balance_at(history.drop_last(), height)
    }
}

/// What a request for `amount` has to redeem from the yield market, in native
/// currency: the amount and its tax, the tax once more for the transfer out
/// of the market, and one unit against rounding, less what is on hand.
pub open spec fn shortfall(amount: u128, tax: u128, balance: u128) -> int {
    amount + tax + tax + 1 - balance
}

/// No game is listed twice.
pub open spec fn distinct_games(games: Seq<String>) -> bool {
    forall|i: int, j: int| 0 <= i < j < games.len() ==> (#[trigger] games[i])@ != (#[trigger] games[j])@
}

/// The parameters a reserve is created with.
#[derive(Clone, Debug, PartialEq, Eq)]
pub struct InstantiateMsg {
    pub anchor_market_address: String,
    pub gov_contract_address: String,
    pub anchor_token_address: String,
    pub threshold: u128,
    pub native_denom: String,
}

impl ReserveState {
    /// No game is listed twice.
    pub open spec fn wf(&self) -> bool {
        distinct_games(self.games@)
    }

    /// Whether `who` is the owner or the governance contract.
    pub open spec fn is_admin(&self, who: Seq<char>) -> bool {
        who == self.owner@ || who == self.config.gov_contract_address@
    }

    /// Why an administrative action is refused, or `None` where it is not.
    pub open spec fn admin_error(&self, sender: Seq<char>, funds: Seq<Coin>) -> Option<
        ContractError,
    > {
        if funds.len() != 0 {
            Some(ContractError::Payment(PaymentError::NonPayable))
        } else if !self.is_admin(sender) {
            Some(ContractError::Unauthorized)
        } else {
            None
        }
    }

    /// A new reserve, owned by `owner`, without games.
    pub fn instantiate(owner: String, funds: &Vec<Coin>, msg: InstantiateMsg) -> (result: Result<
        ReserveState,
        ContractError,
    >)
        ensures
            match result {
                Ok(state) => {
                    &&& funds@.len() == 0
                    &&& state.wf()
                    &&& state.owner == owner
                    &&& state.config == (Config {
                        anchor_market_address: msg.anchor_market_address,
                        gov_contract_address: msg.gov_contract_address,
                        anchor_token_address: msg.anchor_token_address,
                        threshold: msg.threshold,
                        native_denom: msg.native_denom,
                    })
                    &&& state.games@.len() == 0
                    &&& state.requesting_contract.is_none()
                    &&& state.balance_history@.len() == 0
                },
                Err(e) => funds@.len() != 0 && e == ContractError::Payment(
                    PaymentError::NonPayable,
                ),
            },
    {
        match nonpayable(funds) {
            Ok(()) => {},
            Err(e) => { return Err(ContractError::Payment(e)); },
        }
        Ok(
            ReserveState {
                owner,
                config: Config {
                    anchor_market_address: msg.anchor_market_address,
                    gov_contract_address: msg.gov_contract_address,
                    anchor_token_address: msg.anchor_token_address,
                    threshold: msg.threshold,
                    native_denom: msg.native_denom,
                },
                games: Vec::new(),
                requesting_contract: None,
                balance_history: Vec::new(),
            },
        )
    }

    /// Admits the owner and the governance contract, nobody else.
    pub fn only_owner(&self, sender: &String) -> (result: Result<(), ContractError>)
        ensures
            result == (if self.is_admin(sender@) {
                Ok::<(), ContractError>(())
            } else {
                Err::<(), ContractError>(ContractError::Unauthorized)
            }),
    {
        if *sender == self.owner || *sender == self.config.gov_contract_address {
            Ok(())
        } else {
            Err(ContractError::Unauthorized)
        }
    }

    /// The checks that every administrative action starts with.
    pub fn check_admin(&self, sender: &String, funds: &Vec<Coin>) -> (result: Result<
        (),
        ContractError,
    >)
        ensures
            result == (match self.admin_error(sender@, funds@) {
                Some(e) => Err::<(), ContractError>(e),
                None => Ok::<(), ContractError>(()),
            }),
    {
        match nonpayable(funds) {
            Ok(()) => self.only_owner(sender),
            Err(e) => Err(ContractError::Payment(e)),
        }
    }

    /// Sets the balance above which the reserve invests.
    pub fn execute_change_threshold(&mut self, sender: &String, funds: &Vec<Coin>, threshold: u128) -> (result:
        Result<(), ContractError>)
        ensures
            match old(self).admin_error(sender@, funds@) {
                None => result == Ok::<(), ContractError>(()) && *final(self) == (ReserveState {
                    config: Config { threshold, ..old(self).config },
                    ..*old(self)
                }),
                Some(e) => result == Err::<(), ContractError>(e) && *final(self) == *old(self),
            },
    {
        match self.check_admin(sender, funds) {
            Ok(()) => {
                self.config.threshold = threshold;
                Ok(())
            },
            Err(e) => Err(e),
        }
    }

    /// The position of a game in the list, if it is listed.
    pub fn game_position(&self, who: &String) -> (found: Option<usize>)
        ensures
            match found {
                Some(i) => i < self.games@.len() && self.games@[i as int]@ == who@,
                None => !is_game(self.games@, who@),
            },
    {
        let mut i: usize = 0;
        while i < self.games.len()
            invariant
                i <= self.games@.len(),
                forall|j: int| 0 <= j < i ==> (#[trigger] self.games@[j])@ != who@,
            decreases self.games@.len() - i,
        {
            if self.games[i] == *who {
                return Some(i);
            }
            i = i + 1;
        }
        None
    }

    /// Whether `after` and `result` are what admitting a game leaves and returns.
    pub open spec fn is_add_result(
        &self,
        after: ReserveState,
        sender: Seq<char>,
        funds: Seq<Coin>,
        addr: Seq<char>,
        result: Result<(), ContractError>,
    ) -> bool {
        &&& after.wf()
        &&& after.owner == self.owner
        &&& after.config == self.config
        &&& after.requesting_contract == self.requesting_contract
        &&& after.balance_history == self.balance_history
        &&& match self.admin_error(sender, funds) {
            None => result == Ok::<(), ContractError>(()) && forall|who: Seq<char>|
                is_game(after.games@, who) == (is_game(self.games@, who) || who
                    == addr),
            Some(e) => result == Err::<(), ContractError>(e) && after == *self,
        }
    }

    /// Admits a game. Admitting a game twice changes nothing.
    pub fn execute_add_game(&mut self, sender: &String, funds: &Vec<Coin>, addr: &String) -> (result: Result<
        (),
        ContractError,
    >)
        requires
            old(self).wf(),
        ensures
            old(self).is_add_result(*final(self), sender@, funds@, addr@, result),
    {
        match self.check_admin(sender, funds) {
            Ok(()) => {},
            Err(e) => { return Err(e); },
        }
        let ghost before = self.games@;
        match self.game_position(addr) {
            Some(i) => {},
            None => {
                self.games.push(addr.clone());
                proof {
                    let after = self.games@;
                    assert(after[before.len() as int]@ == addr@);
                    assert forall|who: Seq<char>| is_game(after, who) == (is_game(before, who)
                        || who == addr@) by {
                        if is_game(before, who) {
                            let i = choose|i: int| 0 <= i < before.len() && (#[trigger] before[i])@ == who;
                            assert(after[i]@ == who);
                        }
                        if is_game(after, who) && who != addr@ {
                            let i = choose|i: int| 0 <= i < after.len() && (#[trigger] after[i])@ == who;
                            assert(before[i]@ == who);
                        }
                    }
                }
            },
        }
        Ok(())
    }

    /// Whether `after` and `result` are what removing a game leaves and returns.
    pub open spec fn is_remove_result(
        &self,
        after: ReserveState,
        sender: Seq<char>,
        funds: Seq<Coin>,
        addr: Seq<char>,
        result: Result<(), ContractError>,
    ) -> bool {
        &&& after.wf()
        &&& after.owner == self.owner
        &&& after.config == self.config
        &&& after.requesting_contract == self.requesting_contract
        &&& after.balance_history == self.balance_history
        &&& match self.admin_error(sender, funds) {
            None => result == Ok::<(), ContractError>(()) && forall|who: Seq<char>|
                is_game(after.games@, who) == (is_game(self.games@, who) && who
                    != addr),
            Some(e) => result == Err::<(), ContractError>(e) && after == *self,
        }
    }

    /// Removes a game. Removing a game that is not listed changes nothing.
    pub fn execute_remove_game(&mut self, sender: &String, funds: &Vec<Coin>, addr: &String) -> (result:
        Result<(), ContractError>)
        requires
            old(self).wf(),
        ensures
            old(self).is_remove_result(*final(self), sender@, funds@, addr@, result),
    {
        match self.check_admin(sender, funds) {
            Ok(()) => {},
            Err(e) => { return Err(e); },
        }
        let ghost before = self.games@;
        match self.game_position(addr) {
            Some(i) => {
                self.games.remove(i);
                proof {
                    let after = self.games@;
                    assert(after =~= before.remove(i as int));
                    assert forall|a: int, b: int| 0 <= a < b < after.len() implies (#[trigger] after[a])@
                        != (#[trigger] after[b])@ by {
                        let a0 = if a < i { a } else { a + 1 };
                        let b0 = if b < i { b } else { b + 1 };
                        assert(before[a0]@ != before[b0]@);
                    }
                    assert forall|who: Seq<char>| is_game(after, who) == (is_game(before, who)
                        && who != addr@) by {
                        if is_game(before, who) && who != addr@ {
                            let k = choose|k: int| 0 <= k < before.len() && (#[trigger] before[k])@ == who;
                            let k1 = if k < i { k } else { k - 1 };
                            assert(after[k1]@ == who);
                        }
                        if is_game(after, who) {
                            let k = choose|k: int| 0 <= k < after.len() && (#[trigger] after[k])@ == who;
                            let k0 = if k < i { k } else { k + 1 };
                            assert(before[k0]@ == who);
                            if who == addr@ {
                                if k0 < i {
                                    assert(before[k0]@ != before[i as int]@);
                                } else {
                                    assert(before[i as int]@ != before[k0]@);
                                }
                            }
                        }
                    }
                }
            },
            None => {},
        }
        Ok(())
    }

    /// Why a request for funds fails, or `None` where it succeeds.
    pub open spec fn request_error(
        &self,
        sender: Seq<char>,
        funds: Seq<Coin>,
        amount: u128,
        balance: u128,
        tax: TaxPolicy,
        exchange_rate: Decimal,
    ) -> Option<ContractError> {
        if funds.len() != 0 {
            Some(ContractError::Payment(PaymentError::NonPayable))
        } else if !is_game(self.games@, sender) {
            Some(ContractError::Unauthorized)
        } else {
            let t = tax.spec_tax(amount);
            if amount + t > u128::MAX {
                Some(ContractError::Std(StdError::Overflow))
            } else if balance >= amount + t {
                None
            } else if amount + t + t + 1 > u128::MAX {
                Some(ContractError::Std(StdError::Overflow))
            } else if exchange_rate.atomics == 0 {
                Some(ContractError::Std(StdError::DivideByZero))
            } else if checked_div_floor(shortfall(amount, t, balance) as u128, exchange_rate).is_none() {
                Some(ContractError::Std(StdError::Overflow))
            } else {
                None
            }
        }
    }

    /// Whether the balance covers a request for `amount` and its tax.
    pub open spec fn covers(&self, amount: u128, balance: u128, tax: TaxPolicy) -> bool {
        balance >= amount + tax.spec_tax(amount)
    }

    /// Whether `who` is one of the games.
    pub fn only_game(&self, who: &String) -> (result: Result<(), ContractError>)
        ensures
            result == (if is_game(self.games@, who@) {
                Ok::<(), ContractError>(())
            } else {
                Err::<(), ContractError>(ContractError::Unauthorized)
            }),
    {
        let mut i: usize = 0;
        while i < self.games.len()
            invariant
                i <= self.games@.len(),
                forall|j: int| 0 <= j < i ==> (#[trigger] self.games@[j])@ != who@,
            decreases self.games@.len() - i,
        {
            if self.games[i] == *who {
                return Ok(());
            }
            i = i + 1;
        }
        Err(ContractError::Unauthorized)
    }

    /// Whether `after` and `result` are what a request for funds leaves and returns.
    pub open spec fn is_request_result(
        &self,
        after: ReserveState,
        sender: String,
        funds: Seq<Coin>,
        amount: u128,
        balance: u128,
        tax: TaxPolicy,
        exchange_rate: Decimal,
        result: Result<ReserveAction, ContractError>,
    ) -> bool {
        &&& match result {
            Ok(action) => {
                &&& self.request_error(sender@, funds, amount, balance, tax, exchange_rate).is_none()
                &&& after.owner == self.owner
                &&& after.config == self.config
                &&& after.games == self.games
                &&& after.balance_history == self.balance_history
                &&& self.covers(amount, balance, tax) ==> {
                    &&& action == (ReserveAction::SendToGame { to: sender, amount })
                    &&& after.requesting_contract == self.requesting_contract
                }
                &&& !self.covers(amount, balance, tax) ==> {
                    &&& Some(action) == (match checked_div_floor(
                        shortfall(amount, tax.spec_tax(amount), balance) as u128,
                        exchange_rate,
                    ) {
                        Some(redeem) => Some(ReserveAction::RequestFromAnchor { amount: redeem }),
                        None => None,
                    })
                    &&& after.requesting_contract == Some(
                        PendingRequest { contract: sender, amount },
                    )
                }
            },
            Err(e) => {
                &&& self.request_error(sender@, funds, amount, balance, tax, exchange_rate)
                    == Some(e)
                &&& after == *self
            },
        }
    }

    /// A game asks for `amount`. Where the balance covers the amount and its
    /// tax, the amount is sent at once and the state stays as it is. Else the
    /// request is kept in the pending slot and the shortfall, converted at
    /// the exchange rate, is redeemed from the yield market. A request that
    /// fails changes nothing.
    pub fn execute_requeset_funds(
        &mut self,
        sender: &String,
        funds: &Vec<Coin>,
        amount: u128,
        balance: u128,
        tax: &TaxPolicy,
        exchange_rate: Decimal,
    ) -> (result: Result<ReserveAction, ContractError>)
        ensures
            old(self).is_request_result(*final(self), *sender, funds@, amount, balance, *tax, exchange_rate, result),
    {
        match nonpayable(funds) {
            Ok(()) => {},
            Err(e) => { return Err(ContractError::Payment(e)); },
        }
        match self.only_game(sender) {
            Ok(()) => {},
            Err(e) => { return Err(e); },
        }
        let tax_amount: u128 = tax.compute_tax(amount);
        let with_tax: u128 = match amount.checked_add(tax_amount) {
            Some(s) => s,
            None => { return Err(ContractError::Std(StdError::Overflow)); },
        };
        if balance >= with_tax {
            return Ok(ReserveAction::SendToGame { to: sender.clone(), amount });
        }
        let needed: u128 = match with_tax.checked_add(tax_amount) {
            Some(s) => match s.checked_add(1) {
                Some(s) => s,
                None => { return Err(ContractError::Std(StdError::Overflow)); },
            },
            None => { return Err(ContractError::Std(StdError::Overflow)); },
        };
        let request_amount: u128 = needed - balance;
        if exchange_rate.atomics == 0 {
            return Err(ContractError::Std(StdError::DivideByZero));
        }
        let redeem: u128 = match checked_div_decimal(request_amount, exchange_rate) {
            Some(r) => r,
            None => { return Err(ContractError::Std(StdError::Overflow)); },
        };
        self.requesting_contract = Some(PendingRequest { contract: sender.clone(), amount });
        Ok(ReserveAction::RequestFromAnchor { amount: redeem })
    }

    /// Why a deposit fails, or `None` where it succeeds.
    pub open spec fn deposit_error(&self, sender: Seq<char>) -> Option<ContractError> {
        if !is_game(self.games@, sender) {
            Some(ContractError::Unauthorized)
        } else {
            None
        }
    }

    /// Whether `after` and `result` are what a deposit leaves and returns.
    pub open spec fn is_deposit_result(
        &self,
        after: ReserveState,
        sender: Seq<char>,
        balance: u128,
        tax: TaxPolicy,
        block_height: u64,
        total_balance: u128,
        result: Result<ReserveAction, ContractError>,
    ) -> bool {
        &&& match result {
            Ok(action) => {
                &&& self.deposit_error(sender).is_none()
                &&& after.owner == self.owner
                &&& after.config == self.config
                &&& after.games == self.games
                &&& after.requesting_contract == self.requesting_contract
                &&& balance > self.config.threshold ==> {
                    &&& action == (ReserveAction::SendToAnchor {
                        amount: tax.spec_after_tax((balance - self.config.threshold) as u128),
                    })
                    &&& after.balance_history == self.balance_history
                }
                &&& balance <= self.config.threshold ==> {
                    &&& action == ReserveAction::Nothing
                    &&& after.balance_history@ == self.balance_history@.push(
                        (block_height, total_balance),
                    )
                }
            },
            Err(e) => {
                &&& self.deposit_error(sender) == Some(e)
                &&& after == *self
            },
        }
    }

    /// A game has paid funds in. What the balance holds above the threshold
    /// goes, less tax, to the yield market. At or below the threshold nothing
    /// is sent, and the total balance is recorded for the block height. A
    /// deposit that fails changes nothing.
    pub fn execute_deposit_funds(
        &mut self,
        sender: &String,
        balance: u128,
        tax: &TaxPolicy,
        block_height: u64,
        total_balance: u128,
    ) -> (result: Result<ReserveAction, ContractError>)
        ensures
            old(self).is_deposit_result(*final(self), sender@, balance, *tax, block_height, total_balance, result),
    {
        match self.only_game(sender) {
            Ok(()) => {},
            Err(e) => { return Err(e); },
        }
        if balance > self.config.threshold {
            Ok(ReserveAction::SendToAnchor { amount: tax.deduct_tax(balance - self.config.threshold) })
        } else {
            self.balance_history.push((block_height, total_balance));
            Ok(ReserveAction::Nothing)
        }
    }

    /// Whether `after` and `result` are what a command leaves and returns:
    /// for each command, what the function that carries it out leaves and
    /// returns.
    pub open spec fn is_execute_result(
        &self,
        after: ReserveState,
        context: CallContext,
        msg: ExecuteMsg,
        result: Result<ReserveAction, ContractError>,
    ) -> bool {
        match msg {
            ExecuteMsg::ChangeThreshold { threshold } => match self.admin_error(
                context.sender@,
                context.funds@,
            ) {
                None => result == Ok::<ReserveAction, ContractError>(ReserveAction::Nothing)
                    && after == (ReserveState {
                    config: Config { threshold, ..self.config },
                    ..*self
                }),
                Some(e) => result == Err::<ReserveAction, ContractError>(e) && after == *self,
            },
            ExecuteMsg::AddGame { addr } => match result {
                Ok(action) => action == ReserveAction::Nothing && self.is_add_result(
                    after,
                    context.sender@,
                    context.funds@,
                    addr@,
                    Ok::<(), ContractError>(()),
                ),
                Err(e) => self.is_add_result(
                    after,
                    context.sender@,
                    context.funds@,
                    addr@,
                    Err::<(), ContractError>(e),
                ),
            },
            ExecuteMsg::RemoveGame { addr } => match result {
                Ok(action) => action == ReserveAction::Nothing && self.is_remove_result(
                    after,
                    context.sender@,
                    context.funds@,
                    addr@,
                    Ok::<(), ContractError>(()),
                ),
                Err(e) => self.is_remove_result(
                    after,
                    context.sender@,
                    context.funds@,
                    addr@,
                    Err::<(), ContractError>(e),
                ),
            },
            ExecuteMsg::RequestFunds { amount } => self.is_request_result(
                after,
                context.sender,
                context.funds@,
                amount,
                context.balance,
                context.tax,
                context.exchange_rate,
                result,
            ),
            ExecuteMsg::DepositFunds => self.is_deposit_result(
                after,
                context.sender@,
                context.balance,
                context.tax,
                context.block_height,
                context.total_balance,
                result,
            ),
        }
    }

    /// Carries out a command. A command that fails changes nothing.
    pub fn execute(&mut self, context: &CallContext, msg: ExecuteMsg) -> (result: Result<
        ReserveAction,
        ContractError,
    >)
        requires
            old(self).wf(),
        ensures
            old(self).is_execute_result(*final(self), *context, msg, result),
    {
        match msg {
            ExecuteMsg::ChangeThreshold { threshold } => {
                match self.execute_change_threshold(&context.sender, &context.funds, threshold) {
                    Ok(()) => Ok(ReserveAction::Nothing),
                    Err(e) => Err(e),
                }
            },
            ExecuteMsg::AddGame { addr } => {
                match self.execute_add_game(&context.sender, &context.funds, &addr) {
                    Ok(()) => Ok(ReserveAction::Nothing),
                    Err(e) => Err(e),
                }
            },
            ExecuteMsg::RemoveGame { addr } => {
                match self.execute_remove_game(&context.sender, &context.funds, &addr) {
                    Ok(()) => Ok(ReserveAction::Nothing),
                    Err(e) => Err(e),
                }
            },
            ExecuteMsg::RequestFunds { amount } => self.execute_requeset_funds(
                &context.sender,
                &context.funds,
                amount,
                context.balance,
                &context.tax,
                context.exchange_rate,
            ),
            ExecuteMsg::DepositFunds => self.execute_deposit_funds(
                &context.sender,
                context.balance,
                &context.tax,
                context.block_height,
                context.total_balance,
            ),
        }
    }

    /// The yield market has answered: the pending request is paid out. The
    /// slot keeps the request.
    pub fn reply(&self, id: u64) -> (result: Result<ReserveAction, ContractError>)
        ensures
            result == (if id != 1 {
                Err::<ReserveAction, ContractError>(ContractError::InvalidReplyId)
            } else {
                match self.requesting_contract {
                    Some(pending) => Ok::<ReserveAction, ContractError>(
                        ReserveAction::SendToGame { to: pending.contract, amount: pending.amount },
                    ),
                    None => Err::<ReserveAction, ContractError>(
                        ContractError::Std(StdError::NotFound),
                    ),
                }
            }),
    {
        if id != 1 {
            return Err(ContractError::InvalidReplyId);
        }
        match &self.requesting_contract {
            Some(pending) => Ok(
                ReserveAction::SendToGame { to: pending.contract.clone(), amount: pending.amount },
            ),
            None => Err(ContractError::Std(StdError::NotFound)),
        }
    }

    /// The reserve's whole balance in native currency: what it holds, plus
    /// what it holds of the yield market's token at the exchange rate. `None`
    /// where the sum leaves the 128-bit range.
    pub open spec fn spec_current_balance(
        native_balance: u128,
        anchor_balance: u128,
        exchange_rate: Decimal,
    ) -> Option<u128> {
        match crate::decimal::checked_mul_floor(anchor_balance, exchange_rate) {
            Some(converted) => if native_balance + converted <= u128::MAX {
                Some((native_balance + converted) as u128)
            } else {
                None
            },
            None => None,
        }
    }

    /// The balance above which the reserve invests.
    pub fn query_get_threshold(&self) -> (answer: Threshold)
        ensures
            answer.threshold == self.config.threshold,
    {
        Threshold { threshold: self.config.threshold }
    }

    /// The games that the reserve serves, in the order in which they were
    /// admitted.
    pub fn query_list_games(&self) -> (answer: Games)
        ensures
            answer.games@.len() == self.games@.len(),
            forall|i: int|
                0 <= i < self.games@.len() ==> (#[trigger] answer.games@[i])@ == self.games@[i]@,
    {
        let mut games: Vec<String> = Vec::new();
        let mut i: usize = 0;
        while i < self.games.len()
            invariant
                i <= self.games@.len(),
                games@.len() == i,
                forall|j: int| 0 <= j < i ==> (#[trigger] games@[j])@ == self.games@[j]@,
            decreases self.games@.len() - i,
        {
            games.push(self.games[i].clone());
            i = i + 1;
        }
        Games { games }
    }

    /// The reserve's whole balance in native currency, as an answer.
    pub fn query_current_balance(native_balance: u128, anchor_balance: u128, exchange_rate: Decimal) -> (answer:
        Result<CurrentBalance, StdError>)
        ensures
            answer == (match Self::spec_current_balance(
                native_balance,
                anchor_balance,
                exchange_rate,
            ) {
                Some(balance) => Ok::<CurrentBalance, StdError>(CurrentBalance { balance }),
                None => Err::<CurrentBalance, StdError>(StdError::Overflow),
            }),
    {
        match Self::current_balance(native_balance, anchor_balance, exchange_rate) {
            Ok(balance) => Ok(CurrentBalance { balance }),
            Err(e) => Err(e),
        }
    }

    /// The reserve's whole balance in native currency.
    pub fn current_balance(native_balance: u128, anchor_balance: u128, exchange_rate: Decimal) -> (balance:
        Result<u128, StdError>)
        ensures
            balance == (match Self::spec_current_balance(
                native_balance,
                anchor_balance,
                exchange_rate,
            ) {
                Some(b) => Ok::<u128, StdError>(b),
                None => Err::<u128, StdError>(StdError::Overflow),
            }),
    {
        let converted: u128 = match exchange_rate.checked_mul_uint(anchor_balance) {
            Some(c) => c,
            None => { return Err(StdError::Overflow); },
        };
        match native_balance.checked_add(converted) {
            Some(b) => Ok(b),
            None => Err(StdError::Overflow),
        }
    }
}

/// The height of the last deposit below the threshold holds the balance
/// recorded then, and no other height changes.
pub proof fn lemma_balance_recorded(history: Seq<(u64, u128)>, height: u64, balance: u128, other: u64)
    requires
        other != height,
    ensures
        balance_at(history.push((height, balance)), height) == Some(balance),
        balance_at(history.push((height, balance)), other) == balance_at(history, other),
{
    assert(history.push((height, balance)).drop_last() =~= history);
}

} // verus!
