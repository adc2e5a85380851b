//! The actions of a game: placing a bet, which settles the round first where
//! it is due, and claiming rewards.

use vstd::prelude::*;
use crate::error::{ContractError, StdError};
use crate::ledger::{bets_in, betting_limit, committed, exposure, refusal, round_sum};
use crate::payment::{must_pay, nonpayable, spec_must_pay, Coin};
use crate::settlement::{GameState, LatestRandomness};
use crate::tax::TaxPolicy;
use crate::timer::RoundStatus;
use crate::treasury::{spec_treasury_action, TreasuryAction};

verus! {

impl GameState {
    /// The status of the round at time `now`, given the latest randomness.
    pub open spec fn status_at(&self, now: u64, randomness: LatestRandomness) -> RoundStatus {
        self.timer.status_at(now, randomness.round > self.last_randomness_round)
    }

    /// The round that a bet placed at time `now` goes to: the current round
    /// while it is live, the next one where the bet settles the current one.
    pub open spec fn betting_round(&self, now: u64, randomness: LatestRandomness) -> u64 {
        if self.status_at(now, randomness) == RoundStatus::Ready {
            (self.timer.current_round + 1) as u64
        } else {
            self.timer.current_round
        }
    }

    /// The limit on the exposure of a round for a balance of the reserve.
    pub open spec fn limit_for(&self, reserve_balance: u128) -> u128
        recommends
            self.config.max_betting_ratio != 0,
    {
        (reserve_balance / self.config.max_betting_ratio as u128) as u128
    }

    /// Why a bet fails, or `None` where it is accepted. The checks come in
    /// this order: the outcome, the status of the round, the settlement where
    /// it is due, the payment, the betting ratio, the ledger's checks.
    pub open spec fn bet_error(
        &self,
        now: u64,
        sender: Seq<char>,
        funds: Seq<Coin>,
        outcome: u8,
        randomness: LatestRandomness,
        reserve_balance: u128,
    ) -> Option<ContractError> {
        let status = self.status_at(now, randomness);
        if !self.kind.valid_outcome(outcome) {
            Some(
                ContractError::InvalidBetPosition {
                    current_position: outcome,
                    min_position: self.kind.spec_min_outcome(),
                    max_position: self.kind.spec_max_outcome(),
                },
            )
        } else if status == RoundStatus::Stopped {
            Some(ContractError::GameStopped)
        } else if status == RoundStatus::WaitingOnRandomness {
            Some(ContractError::NewRandomnessNotYetAvailable)
        } else if status == RoundStatus::Ready && self.settlement_error(randomness).is_some() {
            self.settlement_error(randomness)
        } else {
            match spec_must_pay(funds, self.config.native_denom) {
                Err(e) => Some(ContractError::Payment(e)),
                Ok(amount) => if self.config.max_betting_ratio == 0 {
                    Some(ContractError::Std(StdError::DivideByZero))
                } else {
                    refusal(
                        self.kind,
                        self.ledger.entries@,
                        self.betting_round(now, randomness),
                        sender,
                        outcome,
                        amount,
                        self.config.max_number_of_bets,
                        self.limit_for(reserve_balance),
                    )
                },
            }
        }
    }

    /// Whether the ledger `after` is the ledger `before` with one more bet of
    /// `who` in `round`, and nothing else changed.
    pub open spec fn bet_recorded(
        before: Seq<crate::ledger::LedgerEntry>,
        after: Seq<crate::ledger::LedgerEntry>,
        round: u64,
        who: Seq<char>,
        outcome: u8,
        amount: u128,
    ) -> bool {
        &&& bets_in(after, round, who) == Some(
            (match bets_in(before, round, who) {
                Some(bets) => bets,
                None => Seq::empty(),
            }).push((outcome, amount)),
        )
        &&& round_sum(after, round) == round_sum(before, round) + amount
        &&& committed(after, round, who) == committed(before, round, who) + amount
        &&& forall|other_round: u64, other: Seq<char>|
            !(other_round == round && other == who) ==> #[trigger] bets_in(
                after,
                other_round,
                other,
            ) == bets_in(before, other_round, other)
    }

    /// Whether `result` is what a bet returns: the state with the bet
    /// recorded, after the settlement where one was due, and the message to
    /// the reserve; or the error that refuses the bet.
    pub open spec fn is_bet_result(
        &self,
        now: u64,
        sender: Seq<char>,
        funds: Seq<Coin>,
        outcome: u8,
        randomness: LatestRandomness,
        reserve_balance: u128,
        contract_balance: u128,
        tax: TaxPolicy,
        result: Result<(GameState, TreasuryAction), ContractError>,
    ) -> bool {
        match result {
            Ok((next, action)) => {
                let round = self.betting_round(now, randomness);
                &&& self.bet_error(now, sender, funds, outcome, randomness, reserve_balance).is_none()
                &&& next.wf()
                &&& next.last_randomness_round == randomness.round
                &&& next.timer.current_round == round
                &&& spec_must_pay(funds, self.config.native_denom) matches Ok(amount)
                    && Self::bet_recorded(
                    self.ledger.entries@,
                    next.ledger.entries@,
                    round,
                    sender,
                    outcome,
                    amount,
                )
                &&& exposure(self.kind, next.ledger.entries@, round, sender)
                    <= self.limit_for(reserve_balance)
                &&& committed(next.ledger.entries@, round, sender) <= self.limit_for(
                    reserve_balance,
                )
                &&& self.status_at(now, randomness) == RoundStatus::Live ==> {
                    &&& action == TreasuryAction::Nothing
                    &&& next.kind == self.kind
                    &&& next.owner == self.owner
                    &&& next.config == self.config
                    &&& next.timer == self.timer
                    &&& next.outcomes_history == self.outcomes_history
                    &&& next.rewards == self.rewards
                }
                &&& self.status_at(now, randomness) == RoundStatus::Ready ==> {
                    &&& self.settled_into(
                        GameState {
                            ledger: self.ledger,
                            last_randomness_round: self.last_randomness_round,
                            ..next
                        },
                        now,
                        randomness,
                    )
                    &&& action == spec_treasury_action(
                        next.rewards.total,
                        contract_balance,
                        self.config.max_cashflow,
                        tax,
                    )
                }
            },
            Err(e) => self.bet_error(now, sender, funds, outcome, randomness, reserve_balance)
                == Some(e),
        }
    }

    /// A player bets the funds attached on `outcome`. Where the round's time
    /// has passed and new randomness exists, the round is settled first and
    /// the bet goes to the next round; the message to the reserve is that of
    /// the settlement. The randomness round seen is bound to the state. After
    /// an accepted bet what the player has wagered in the round is within the
    /// reserve's balance divided by the betting ratio. A bet that fails
    /// yields no state: nothing of it is kept.
    pub fn execute_bet(
        self,
        now: u64,
        sender: &String,
        funds: &Vec<Coin>,
        outcome: u8,
        randomness: &LatestRandomness,
        reserve_balance: u128,
        contract_balance: u128,
        tax: &TaxPolicy,
    ) -> (result: Result<(GameState, TreasuryAction), ContractError>)
        requires
            self.wf(),
        ensures
            self.is_bet_result(
                now,
                sender@,
                funds@,
                outcome,
                *randomness,
                reserve_balance,
                contract_balance,
                *tax,
                result,
            ),
    {
        if outcome < self.kind.min_outcome() || self.kind.max_outcome() < outcome {
            return Err(
                ContractError::InvalidBetPosition {
                    current_position: outcome,
                    min_position: self.kind.min_outcome(),
                    max_position: self.kind.max_outcome(),
                },
            );
        }
        let exist_new_randomness = randomness.round > self.last_randomness_round;
        let status = self.timer.round_status(now, exist_new_randomness);
        let ghost start = self;
        let (mut state, action) = match status {
            RoundStatus::Live => (self, TreasuryAction::Nothing),
            RoundStatus::Ready => match self.end_round(now, randomness, contract_balance, tax) {
                Ok(settled) => settled,
                Err(e) => { return Err(e); },
            },
            RoundStatus::WaitingOnRandomness => {
                return Err(ContractError::NewRandomnessNotYetAvailable);
            },
            RoundStatus::Stopped => {
                return Err(ContractError::GameStopped);
            },
        };
        let ghost mid = state;
        let current_round = state.timer.current_round();
        let current_bet = match must_pay(funds, &state.config.native_denom) {
            Ok(amount) => amount,
            Err(e) => { return Err(ContractError::Payment(e)); },
        };
        let total_bet_limit = match betting_limit(reserve_balance, state.config.max_betting_ratio) {
            Ok(limit) => limit,
            Err(e) => { return Err(ContractError::Std(e)); },
        };
        match state.ledger.place_bet(
            state.kind,
            current_round,
            sender,
            outcome,
            current_bet,
            state.config.max_number_of_bets,
            total_bet_limit,
        ) {
            Ok(()) => {},
            Err(e) => { return Err(e); },
        }
        state.last_randomness_round = randomness.round;
        proof {
            if status == RoundStatus::Ready {
                let back = GameState {
                    ledger: start.ledger,
                    last_randomness_round: start.last_randomness_round,
                    ..state
                };
                assert(back == mid);
            }
        }
        Ok((state, action))
    }

    /// What `execute_receive_rewards` sends: the player's reward less tax,
    /// or no message where the player has no reward.
    pub open spec fn spec_payout(&self, who: Seq<char>, tax: TaxPolicy) -> Option<u128> {
        if self.rewards.reward_of(who) == 0 {
            None
        } else {
            Some(tax.spec_after_tax(self.rewards.reward_of(who)))
        }
    }

    /// Why a claim fails, or `None` where it succeeds.
    pub open spec fn claim_error(&self, funds: Seq<Coin>) -> Option<ContractError> {
        if funds.len() != 0 {
            Some(ContractError::Payment(crate::error::PaymentError::NonPayable))
        } else {
            None
        }
    }

    /// Whether `after` and `result` are what a claim leaves and returns.
    pub open spec fn is_claim_result(
        &self,
        after: GameState,
        sender: Seq<char>,
        funds: Seq<Coin>,
        tax: TaxPolicy,
        result: Result<Option<u128>, ContractError>,
    ) -> bool {
        &&& after.wf()
        &&& after.kind == self.kind
        &&& after.owner == self.owner
        &&& after.config == self.config
        &&& after.timer == self.timer
        &&& after.last_randomness_round == self.last_randomness_round
        &&& after.ledger == self.ledger
        &&& after.outcomes_history == self.outcomes_history
        &&& match result {
            Ok(sent) => {
                &&& self.claim_error(funds).is_none()
                &&& sent == self.spec_payout(sender, tax)
                &&& after.rewards.reward_of(sender) == 0
                &&& after.rewards.total == self.rewards.total
                    - self.rewards.reward_of(sender)
                &&& forall|other: Seq<char>|
                    other != sender ==> after.rewards.reward_of(other) == self.rewards.reward_of(other)
            },
            Err(e) => {
                &&& self.claim_error(funds) == Some(e)
                &&& after == *self
            },
        }
    }

    /// A player claims their reward. Their reward becomes zero, the total of
    /// unclaimed rewards falls by it and stays the sum of all players'
    /// rewards; the result is what is sent to the player, the reward less
    /// tax. Without a reward nothing is sent and nothing changes, and a claim
    /// that fails changes nothing.
    pub fn execute_receive_rewards(&mut self, sender: &String, funds: &Vec<Coin>, tax: &TaxPolicy) -> (result:
        Result<Option<u128>, ContractError>)
        requires
            old(self).wf(),
        ensures
            old(self).is_claim_result(*final(self), sender@, funds@, *tax, result),
    {
        match nonpayable(funds) {
            Ok(()) => {},
            Err(e) => { return Err(ContractError::Payment(e)); },
        }
        let reward = self.rewards.reward(sender);
        if reward == 0 {
            return Ok(None);
        }
        let sent = tax.deduct_tax(reward);
        self.rewards.claim(sender);
        Ok(Some(sent))
    }
}

/// A claim keeps the total equal to the sum of all players' rewards.
pub proof fn lemma_total_is_sum_after_claim(
    before: GameState,
    after: GameState,
    sender: Seq<char>,
    funds: Seq<Coin>,
    tax: TaxPolicy,
    result: Result<Option<u128>, ContractError>,
)
    requires
        before.wf(),
        before.is_claim_result(after, sender, funds, tax, result),
    ensures
        after.rewards.total == crate::rewards::amounts_sum(after.rewards.players@),
{
}

/// After an accepted bet, what the player has wagered in the round of the bet
/// is at most the balance that the reserve had at the time of the bet,
/// divided by the betting ratio.
pub proof fn lemma_wagered_within_limit_after_bet(
    before: GameState,
    after: GameState,
    action: TreasuryAction,
    now: u64,
    sender: Seq<char>,
    funds: Seq<Coin>,
    outcome: u8,
    randomness: LatestRandomness,
    reserve_balance: u128,
    contract_balance: u128,
    tax: TaxPolicy,
)
    requires
        before.wf(),
        before.is_bet_result(
            now,
            sender,
            funds,
            outcome,
            randomness,
            reserve_balance,
            contract_balance,
            tax,
            Ok::<(GameState, TreasuryAction), ContractError>((after, action)),
        ),
    ensures
        before.config.max_betting_ratio != 0,
        committed(after.ledger.entries@, after.timer.current_round, sender) <= reserve_balance
            / before.config.max_betting_ratio as u128,
{
}

} // verus!
