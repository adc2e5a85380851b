//! The state of a game and the settlement of a round.

use vstd::prelude::*;
use crate::decimal::Decimal;
use crate::error::{ContractError, StdError};
use crate::game::GameKind;
use crate::ledger::BetLedger;
use crate::payout::{entry_win, player_win, player_winnings, total_win, wins_fit, lemma_total_win_prefix};
use crate::rewards::RewardBook;
use crate::tax::TaxPolicy;
use crate::timer::RoundTimer;
use crate::treasury::{spec_treasury_action, treasury_action, TreasuryAction};

verus! {

/// The economic parameters of a game.
#[derive(Clone, Debug, PartialEq, Eq)]
pub struct CasinoConfig {
    pub native_denom: String,
    /// One coefficient per outcome that pays: one for the coin flip, ten for
    /// the dice.
    pub win_coefficents: Vec<Decimal>,
    /// The share of a win that is left after the tax on wins.
    pub win_tax: Decimal,
    pub max_number_of_bets: u64,
    pub max_betting_ratio: u64,
    pub max_cashflow: u128,
    pub terrand_address: String,
    pub reserve_address: String,
    pub gov_contract_address: String,
}

/// The latest value of the randomness beacon.
#[derive(Clone, Debug, PartialEq, Eq)]
pub struct LatestRandomness {
    pub round: u64,
    pub randomness: Vec<u8>,
}

/// Everything a game keeps between two actions.
#[derive(Clone, Debug, PartialEq, Eq)]
pub struct GameState {
    pub kind: GameKind,
    pub owner: String,
    pub config: CasinoConfig,
    pub timer: RoundTimer,
    pub last_randomness_round: u64,
    pub ledger: BetLedger,
    /// The outcome of every settled round, in the order of settlement.
    pub outcomes_history: Vec<(u64, u8)>,
    pub rewards: RewardBook,
}

/// Every round before `current_round`, and no other, has its outcome at the
/// position of its number.
pub open spec fn history_complete(history: Seq<(u64, u8)>, current_round: u64) -> bool {
    &&& history.len() == current_round
    &&& forall|i: int| 0 <= i < history.len() ==> (#[trigger] history[i]).0 == i
}

impl GameState {
    /// The state is consistent: the coefficient table fits the game, the
    /// ledger and the reward book are well formed, and the history holds
    /// exactly the settled rounds.
    pub open spec fn wf(&self) -> bool {
        &&& self.config.win_coefficents@.len() == self.kind.spec_coefficient_count()
        &&& self.ledger.wf(self.kind)
        &&& self.rewards.wf()
        &&& history_complete(self.outcomes_history@, self.timer.current_round)
    }

    /// The outcome that a random value gives the current round.
    pub open spec fn rolled(&self, randomness: Seq<u8>) -> u8 {
        self.kind.spec_rolled_outcome(randomness) as u8
    }

    /// What all bets of the current round win together for that outcome.
    pub open spec fn round_win(&self, rolled: u8) -> nat {
        total_win(
            self.kind,
            self.config.win_coefficents@,
            self.config.win_tax,
            rolled,
            self.ledger.entries@,
            self.timer.current_round,
        )
    }

    /// What `who` wins in the current round for that outcome.
    pub open spec fn win_of(&self, rolled: u8, who: Seq<char>) -> nat {
        player_win(
            self.kind,
            self.config.win_coefficents@,
            self.config.win_tax,
            rolled,
            self.ledger.entries@,
            self.timer.current_round,
            who,
        )
    }

    /// Whether crediting the wins of the current round stays within 128 bits.
    pub open spec fn wins_in_range(&self, rolled: u8) -> bool {
        &&& wins_fit(
            self.kind,
            self.config.win_coefficents@,
            self.config.win_tax,
            rolled,
            self.ledger.entries@,
            self.timer.current_round,
        )
        &&& self.rewards.total + self.round_win(rolled) <= u128::MAX
    }

    /// Why a settlement fails, or `None` where it succeeds.
    pub open spec fn settlement_error(&self, randomness: LatestRandomness) -> Option<ContractError> {
        if randomness.round <= self.last_randomness_round {
            Some(ContractError::NewRandomnessNotYetAvailable)
        } else if randomness.randomness@.len() != 32 {
            Some(
                ContractError::Std(
                    StdError::InvalidDataSize {
                        expected: 32,
                        actual: randomness.randomness@.len() as u64,
                    },
                ),
            )
        } else if !self.wins_in_range(self.rolled(randomness.randomness@))
            || self.timer.current_round == u64::MAX {
            Some(ContractError::Std(StdError::Overflow))
        } else {
            None
        }
    }

    /// Whether `next` is this state after a settlement at time `now` with
    /// that random value: the outcome is appended to the history, every
    /// player is credited what their bets of the round win, the total grows
    /// by the sum of the wins, the timer starts the next round and binds the
    /// randomness round, and nothing else changes.
    pub open spec fn settled_into(
        &self,
        next: GameState,
        now: u64,
        randomness: LatestRandomness,
    ) -> bool {
        let rolled = self.rolled(randomness.randomness@);
        &&& next.wf()
        &&& next.kind == self.kind
        &&& next.owner == self.owner
        &&& next.config == self.config
        &&& next.last_randomness_round == self.last_randomness_round
        &&& next.ledger == self.ledger
        &&& next.outcomes_history@ == self.outcomes_history@.push(
            (self.timer.current_round, rolled),
        )
        &&& next.timer == (RoundTimer {
            current_round_start_time: now,
            current_round: (self.timer.current_round + 1) as u64,
            drand_round: randomness.round,
            ..self.timer
        })
        &&& next.rewards.total == self.rewards.total + self.round_win(rolled)
        &&& forall|who: Seq<char>| #[trigger]
            next.rewards.reward_of(who) == self.rewards.reward_of(who) + self.win_of(rolled, who)
    }

    /// Settles the current round: derives its outcome from the random value,
    /// records it, credits the winners, starts the next round, and decides
    /// the message to the reserve from the balance. The winners are credited
    /// in the order of the ledger; what anybody is credited does not depend
    /// on the order. A settlement that fails yields no state: nothing of it
    /// is kept.
    pub fn end_round(
        self,
        now: u64,
        randomness: &LatestRandomness,
        contract_balance: u128,
        tax: &TaxPolicy,
    ) -> (result: Result<(GameState, TreasuryAction), ContractError>)
        requires
            self.wf(),
        ensures
            match result {
                Ok((next, action)) => {
                    &&& self.settlement_error(*randomness).is_none()
                    &&& self.settled_into(next, now, *randomness)
                    &&& action == spec_treasury_action(
                        next.rewards.total,
                        contract_balance,
                        self.config.max_cashflow,
                        *tax,
                    )
                },
                Err(e) => self.settlement_error(*randomness) == Some(e),
            },
    {
        if randomness.round <= self.last_randomness_round {
            return Err(ContractError::NewRandomnessNotYetAvailable);
        }
        let rolled = match self.kind.rolled_outcome(&randomness.randomness) {
            Ok(rolled) => rolled,
            Err(e) => { return Err(ContractError::Std(e)); },
        };
        let mut state = self;
        let round = state.timer.current_round;
        let ghost kind = self.kind;
        let ghost coefficients = self.config.win_coefficents@;
        let ghost win_tax = self.config.win_tax;
        let ghost entries = self.ledger.entries@;
        let mut i: usize = 0;
        assert(entries.take(0) =~= Seq::<crate::ledger::LedgerEntry>::empty());
        while i < state.ledger.entries.len()
            invariant
                i <= entries.len(),
                self.wf(),
                randomness.round > self.last_randomness_round,
                randomness.randomness@.len() == 32,
                rolled == self.rolled(randomness.randomness@),
                state.kind == self.kind,
                state.owner == self.owner,
                state.config == self.config,
                state.timer == self.timer,
                state.last_randomness_round == self.last_randomness_round,
                state.ledger == self.ledger,
                state.outcomes_history == self.outcomes_history,
                kind == self.kind,
                coefficients == self.config.win_coefficents@,
                win_tax == self.config.win_tax,
                entries == self.ledger.entries@,
                round == self.timer.current_round,
                state.rewards.wf(),
                forall|j: int|
                    0 <= j < i && (#[trigger] entries[j]).round == round ==> crate::payout::winnings(
                        kind,
                        coefficients,
                        win_tax,
                        rolled,
                        entries[j].bets@,
                    ).is_some(),
                state.rewards.total == self.rewards.total + total_win(
                    kind,
                    coefficients,
                    win_tax,
                    rolled,
                    entries.take(i as int),
                    round,
                ),
                forall|who: Seq<char>| #[trigger]
                    state.rewards.reward_of(who) == self.rewards.reward_of(who) + player_win(
                        kind,
                        coefficients,
                        win_tax,
                        rolled,
                        entries.take(i as int),
                        round,
                        who,
                    ),
            decreases entries.len() - i,
        {
            let ghost book = state.rewards;
            proof {
                assert(entries.take(i + 1).drop_last() =~= entries.take(i as int));
                assert(entries.take(i + 1).last() == entries[i as int]);
                lemma_total_win_prefix(kind, coefficients, win_tax, rolled, entries, round, i + 1);
            }
            if state.ledger.entries[i].round == round {
                assert(forall|k: int|
                    0 <= k < entries[i as int].bets@.len() ==> kind.valid_outcome(
                        (#[trigger] entries[i as int].bets@[k]).0,
                    ));
                let win = match player_winnings(
                    state.kind,
                    &state.config.win_coefficents,
                    state.config.win_tax,
                    rolled,
                    &state.ledger.entries[i].bets,
                ) {
                    Some(win) => win,
                    None => {
                        assert(!wins_fit(kind, coefficients, win_tax, rolled, entries, round)) by {
                            assert(entries[i as int].round == round);
                        }
                        return Err(ContractError::Std(StdError::Overflow));
                    },
                };
                assert(entry_win(kind, coefficients, win_tax, rolled, entries[i as int]) == win);
                assert(total_win(kind, coefficients, win_tax, rolled, entries.take(i + 1), round)
                    == total_win(kind, coefficients, win_tax, rolled, entries.take(i as int), round)
                    + win);
                if win > 0 {
                    if win > u128::MAX - state.rewards.total {
                        assert(self.rewards.total + self.round_win(rolled) > u128::MAX);
                        return Err(ContractError::Std(StdError::Overflow));
                    }
                    state.rewards.credit(&state.ledger.entries[i].player, win);
                }
            }
            assert forall|who: Seq<char>| #[trigger]
                state.rewards.reward_of(who) == self.rewards.reward_of(who) + player_win(
                    kind,
                    coefficients,
                    win_tax,
                    rolled,
                    entries.take(i + 1),
                    round,
                    who,
                ) by {
                assert(book.reward_of(who) == self.rewards.reward_of(who) + player_win(
                    kind,
                    coefficients,
                    win_tax,
                    rolled,
                    entries.take(i as int),
                    round,
                    who,
                ));
            }
            i = i + 1;
        }
        assert(entries.take(entries.len() as int) =~= entries);
        if round == u64::MAX {
            return Err(ContractError::Std(StdError::Overflow));
        }
        state.outcomes_history.push((round, rolled));
        state.timer.next_round(now);
        state.timer.update_drand(randomness.round);
        let action = treasury_action(
            state.rewards.total,
            contract_balance,
            state.config.max_cashflow,
            tax,
        );
        Ok((state, action))
    }
}

/// In a consistent state every settled round has exactly one outcome: two
/// places of the history never hold the same round, and each round before
/// the current one is at the place of its number.
pub proof fn lemma_one_outcome_per_round(state: GameState, i: int, j: int)
    requires
        state.wf(),
        0 <= i < state.outcomes_history@.len(),
        0 <= j < state.outcomes_history@.len(),
        i != j,
    ensures
        state.outcomes_history@[i].0 != state.outcomes_history@[j].0,
        state.outcomes_history@[i].0 < state.timer.current_round,
        state.outcomes_history@.len() == state.timer.current_round,
{
}

/// A settlement keeps every outcome recorded before it: the history it
/// leaves starts with the history it found.
pub proof fn lemma_history_never_overwritten(
    before: GameState,
    after: GameState,
    now: u64,
    randomness: LatestRandomness,
    round: int,
)
    requires
        before.wf(),
        before.settled_into(after, now, randomness),
        0 <= round < before.outcomes_history@.len(),
    ensures
        after.outcomes_history@[round] == before.outcomes_history@[round],
        after.outcomes_history@.len() == before.outcomes_history@.len() + 1,
{
}

/// A settlement moves to the round whose number is one more than that of the
/// round it closes: round numbers rise, never repeat and never skip.
pub proof fn lemma_settlement_advances_round_by_one(
    before: GameState,
    after: GameState,
    now: u64,
    randomness: LatestRandomness,
)
    requires
        before.wf(),
        before.settled_into(after, now, randomness),
    ensures
        after.timer.current_round == before.timer.current_round + 1,
        after.outcomes_history@.last().0 == before.timer.current_round,
{
}

/// A settlement keeps the total equal to the sum of all players' rewards.
pub proof fn lemma_total_is_sum_after_settlement(
    before: GameState,
    after: GameState,
    now: u64,
    randomness: LatestRandomness,
)
    requires
        before.wf(),
        before.settled_into(after, now, randomness),
    ensures
        after.rewards.total == crate::rewards::amounts_sum(after.rewards.players@),
{
}

} // verus!
