//! What a game answers without changing anything.

use vstd::prelude::*;
use crate::decimal::decimal_to_string;
use crate::error::StdError;
use crate::ledger::{bets_in, betting_limit, round_sum, LedgerEntry};
use crate::listing::{is_page, DEFAULT_PAGE_SIZE};
use crate::msg::{Bets, BettingLimit, CurrentRound, OutcomeHistory, Rewards, TotalRewards, WinCoefficientTable, WinCoefficients};
use crate::settlement::{GameState, LatestRandomness};
use crate::timer::RoundStatus;

verus! {

/// A question to a game.
#[derive(Clone, Debug, PartialEq, Eq)]
pub enum QueryMsg {
    WinConfficients,
    PlayerRewards { addr: String },
    CurrentRound,
    PlayerBetsForRound { addr: String, round: u64 },
    PlayerBetsAllRounds { addr: String },
    AllBets { last_evaluated_key: Option<(u64, String)>, page_size: Option<u16> },
    OutcomeHistory,
    GetBettingLimit,
    GetActiveBettingLimit,
    GetTotalRewards,
}

/// The answer of a game to a question.
#[derive(Clone, Debug, PartialEq, Eq)]
pub enum QueryResponse {
    WinCoefficients(WinCoefficientTable),
    PlayerRewards(Rewards),
    CurrentRound(CurrentRound),
    PlayerBets(Bets),
    PlayerBetsAllRounds(Vec<Bets>),
    AllBets(Vec<(String, Bets)>),
    OutcomeHistory(OutcomeHistory),
    BettingLimit(BettingLimit),
    TotalRewards(TotalRewards),
}

/// The rounds in which `who` has placed bets, in the order of their first bet.
pub open spec fn rounds_of(entries: Seq<LedgerEntry>, who: Seq<char>) -> Seq<u64>
    decreases entries.len(),
{
    if entries.len() == 0 {
        Seq::empty()
    } else if entries.last().player@ == who {
        rounds_of(entries.drop_last(), who).push(entries.last().round)
    } else {
        rounds_of(entries.drop_last(), who)
    }
}

/// The entries of `who`, oldest first: each a round and the bets placed in it.
pub open spec fn entries_of(entries: Seq<LedgerEntry>, who: Seq<char>) -> Seq<(u64, Seq<(u8, u128)>)>
    decreases entries.len(),
{
    if entries.len() == 0 {
        Seq::empty()
    } else if entries.last().player@ == who {
        entries_of(entries.drop_last(), who).push((entries.last().round, entries.last().bets@))
    } else {
        entries_of(entries.drop_last(), who)
    }
}

/// Whether an answer holds the round and the bets of an entry.
pub open spec fn answers(answer: Bets, entry: (u64, Seq<(u8, u128)>)) -> bool {
    &&& answer.round == entry.0
    &&& answer.bets matches Some(bets) && bets@ == entry.1
}

/// The number of entries on a page.
pub open spec fn page_length(page_size: Option<u16>) -> int {
    match page_size {
        Some(size) => size as int,
        None => DEFAULT_PAGE_SIZE as int,
    }
}

/// Whether an answer holds, in the order of `positions`, the player, the
/// round and the bets of the entries at these positions.
pub open spec fn lists(entries: Seq<LedgerEntry>, positions: Seq<usize>, answer: Seq<(String, Bets)>) -> bool {
    &&& answer.len() == positions.len()
    &&& forall|k: int|
        0 <= k < answer.len() ==> (#[trigger] answer[k]).0@ == entries[positions[k] as int].player@
            && answers(
            answer[k].1,
            (entries[positions[k] as int].round, entries[positions[k] as int].bets@),
        )
}

/// A copy of a list of bets.
pub fn copy_bets(bets: &Vec<(u8, u128)>) -> (copy: Vec<(u8, u128)>)
    ensures
        copy@ == bets@,
{
    let mut copy: Vec<(u8, u128)> = Vec::new();
    let mut i: usize = 0;
    while i < bets.len()
        invariant
            i <= bets@.len(),
            copy@ == bets@.take(i as int),
        decreases bets@.len() - i,
    {
        copy.push(bets[i]);
        assert(bets@.take(i + 1) =~= bets@.take(i as int).push(bets@[i as int]));
        i = i + 1;
    }
    assert(bets@.take(bets@.len() as int) =~= bets@);
    copy
}

impl GameState {
    /// The most that may be wagered in a round for a balance of the reserve,
    /// less what the current round holds while it is live. `None` where the
    /// betting ratio is zero or the round holds more than the limit.
    pub open spec fn spec_active_limit(
        &self,
        now: u64,
        randomness: LatestRandomness,
        reserve_balance: u128,
    ) -> Option<u128> {
        let total = round_sum(self.ledger.entries@, self.timer.current_round);
        if self.config.max_betting_ratio == 0 || total > u128::MAX {
            None
        } else if self.status_at(now, randomness) == RoundStatus::Live {
            if total <= self.limit_for(reserve_balance) {
                Some((self.limit_for(reserve_balance) - total) as u128)
            } else {
                None
            }
        } else {
            Some(self.limit_for(reserve_balance))
        }
    }

    /// Whether an answer holds the win coefficients as decimal strings, in
    /// the order of the table.
    pub open spec fn is_coefficient_texts(&self, answer: WinCoefficientTable) -> bool {
        &&& answer.coefficients@.len() == self.config.win_coefficents@.len()
        &&& forall|i: int|
            0 <= i < answer.coefficients@.len() ==> (#[trigger] answer.coefficients@[i])@
                == decimal_to_string(self.config.win_coefficents@[i].atomics)
    }

    /// Whether an answer holds the bets of `who` in every round in which
    /// they placed any, oldest first.
    pub open spec fn is_bets_of(&self, who: Seq<char>, answer: Seq<Bets>) -> bool {
        &&& answer.len() == entries_of(self.ledger.entries@, who).len()
        &&& forall|k: int|
            0 <= k < answer.len() ==> answers(
                #[trigger] answer[k],
                entries_of(self.ledger.entries@, who)[k],
            )
    }

    /// Whether an answer is one page of all bets: the entries whose key
    /// comes after `last_evaluated_key`, the highest key first, at most
    /// `page_size` of them, or 50 where no size is given.
    pub open spec fn is_bets_page(
        &self,
        last_evaluated_key: Option<(u64, String)>,
        page_size: Option<u16>,
        answer: Seq<(String, Bets)>,
    ) -> bool {
        exists|positions: Seq<usize>|
            #![trigger lists(self.ledger.entries@, positions, answer)]
            is_page(self.ledger.entries@, last_evaluated_key, page_length(page_size), positions)
                && lists(self.ledger.entries@, positions, answer)
    }

    /// The win coefficients as decimal strings, in the order of the table.
    pub fn query_win_coefficients(&self) -> (answer: WinCoefficientTable)
        ensures
            self.is_coefficient_texts(answer),
    {
        let mut coefficients: Vec<String> = Vec::new();
        let mut i: usize = 0;
        while i < self.config.win_coefficents.len()
            invariant
                i <= self.config.win_coefficents@.len(),
                coefficients@.len() == i,
                forall|j: int|
                    0 <= j < i ==> (#[trigger] coefficients@[j])@ == decimal_to_string(
                        self.config.win_coefficents@[j].atomics,
                    ),
            decreases self.config.win_coefficents@.len() - i,
        {
            coefficients.push(self.config.win_coefficents[i].to_text());
            i = i + 1;
        }
        WinCoefficientTable { coefficients }
    }

    /// The first win coefficient as a decimal string: the coin flip's only one.
    pub fn query_win_coefficient(&self) -> (answer: WinCoefficients)
        requires
            self.wf(),
        ensures
            answer.coefficients@ == decimal_to_string(self.config.win_coefficents@[0].atomics),
    {
        WinCoefficients { coefficients: self.config.win_coefficents[0].to_text() }
    }

    /// What `addr` can claim.
    pub fn query_player_rewards(&self, addr: &String) -> (answer: Rewards)
        requires
            self.wf(),
        ensures
            answer.rewards == self.rewards.reward_of(addr@),
    {
        Rewards { rewards: self.rewards.reward(addr) }
    }

    /// The sum of what all players can claim.
    pub fn query_total_rewards(&self) -> (answer: TotalRewards)
        ensures
            answer.total_rewards == self.rewards.total,
    {
        TotalRewards { total_rewards: self.rewards.total }
    }

    /// The current round and its status at time `now`.
    pub fn query_current_round(&self, now: u64, randomness: &LatestRandomness) -> (answer:
        CurrentRound)
        ensures
            answer == (CurrentRound {
                round: self.timer.current_round,
                status: self.status_at(now, *randomness),
                drand_round: self.timer.drand_round,
            }),
    {
        let exist_new_randomness = randomness.round > self.last_randomness_round;
        CurrentRound {
            round: self.timer.current_round(),
            status: self.timer.round_status(now, exist_new_randomness),
            drand_round: self.timer.drand_round(),
        }
    }

    /// The bets of `addr` in `round`.
    pub fn query_bets_address_for_round(&self, addr: &String, round: u64) -> (answer: Bets)
        requires
            self.wf(),
        ensures
            answer.round == round,
            match answer.bets {
                Some(bets) => bets_in(self.ledger.entries@, round, addr@) == Some(bets@),
                None => bets_in(self.ledger.entries@, round, addr@).is_none(),
            },
    {
        match self.ledger.player_bets(round, addr) {
            Some(bets) => Bets { round, bets: Some(copy_bets(bets)) },
            None => Bets { round, bets: None },
        }
    }

    /// The bets of `addr` in every round in which they placed any.
    pub fn query_bets_address(&self, addr: &String) -> (answer: Vec<Bets>)
        ensures
            self.is_bets_of(addr@, answer@),
    {
        let mut answer: Vec<Bets> = Vec::new();
        let mut i: usize = 0;
        assert(self.ledger.entries@.take(0) =~= Seq::<LedgerEntry>::empty());
        while i < self.ledger.entries.len()
            invariant
                i <= self.ledger.entries@.len(),
                answer@.len() == entries_of(self.ledger.entries@.take(i as int), addr@).len(),
                forall|k: int|
                    0 <= k < answer@.len() ==> answers(
                        #[trigger] answer@[k],
                        entries_of(self.ledger.entries@.take(i as int), addr@)[k],
                    ),
            decreases self.ledger.entries@.len() - i,
        {
            assert(self.ledger.entries@.take(i + 1).drop_last() =~= self.ledger.entries@.take(
                i as int,
            ));
            if self.ledger.entries[i].player == *addr {
                let bets = copy_bets(&self.ledger.entries[i].bets);
                answer.push(Bets { round: self.ledger.entries[i].round, bets: Some(bets) });
            }
            i = i + 1;
        }
        assert(self.ledger.entries@.take(self.ledger.entries@.len() as int)
            =~= self.ledger.entries@);
        answer
    }

    /// One page of all bets: the entries whose key, the round and then the
    /// bytes of the player's address, comes after `last_evaluated_key`, the
    /// highest key first, at most `page_size` of them, or 50 where no size is
    /// given.
    pub fn query_all_bets(&self, last_evaluated_key: Option<(u64, String)>, page_size: Option<u16>) -> (answer:
        Vec<(String, Bets)>)
        ensures
            self.is_bets_page(last_evaluated_key, page_size, answer@),
    {
        let page: usize = match page_size {
            Some(size) => size as usize,
            None => DEFAULT_PAGE_SIZE as usize,
        };
        let positions = self.ledger.page_positions(&last_evaluated_key, page);
        let mut answer: Vec<(String, Bets)> = Vec::new();
        let mut k: usize = 0;
        while k < positions.len()
            invariant
                k <= positions@.len(),
                is_page(
                    self.ledger.entries@,
                    last_evaluated_key,
                    page_length(page_size),
                    positions@,
                ),
                lists(self.ledger.entries@, positions@.take(k as int), answer@),
            decreases positions@.len() - k,
        {
            let position: usize = positions[k];
            let entry = &self.ledger.entries[position];
            let bets = copy_bets(&entry.bets);
            answer.push((entry.player.clone(), Bets { round: entry.round, bets: Some(bets) }));
            k = k + 1;
        }
        assert(positions@.take(positions@.len() as int) =~= positions@);
        assert(lists(self.ledger.entries@, positions@, answer@));
        answer
    }

    /// The rounds in which `addr` has placed bets.
    pub fn query_player_rounds(&self, addr: &String) -> (rounds: Vec<u64>)
        ensures
            rounds@ == rounds_of(self.ledger.entries@, addr@),
    {
        let mut rounds: Vec<u64> = Vec::new();
        let mut i: usize = 0;
        assert(self.ledger.entries@.take(0) =~= Seq::<LedgerEntry>::empty());
        while i < self.ledger.entries.len()
            invariant
                i <= self.ledger.entries@.len(),
                rounds@ == rounds_of(self.ledger.entries@.take(i as int), addr@),
            decreases self.ledger.entries@.len() - i,
        {
            assert(self.ledger.entries@.take(i + 1).drop_last() =~= self.ledger.entries@.take(
                i as int,
            ));
            if self.ledger.entries[i].player == *addr {
                rounds.push(self.ledger.entries[i].round);
            }
            i = i + 1;
        }
        assert(self.ledger.entries@.take(self.ledger.entries@.len() as int)
            =~= self.ledger.entries@);
        rounds
    }

    /// The outcome of every settled round, oldest first.
    pub fn query_outcome_history(&self) -> (answer: OutcomeHistory)
        ensures
            answer.outcomes@ == self.outcomes_history@,
    {
        let mut outcomes: Vec<(u64, u8)> = Vec::new();
        let mut i: usize = 0;
        while i < self.outcomes_history.len()
            invariant
                i <= self.outcomes_history@.len(),
                outcomes@ == self.outcomes_history@.take(i as int),
            decreases self.outcomes_history@.len() - i,
        {
            outcomes.push(self.outcomes_history[i]);
            assert(self.outcomes_history@.take(i + 1) =~= self.outcomes_history@.take(
                i as int,
            ).push(self.outcomes_history@[i as int]));
            i = i + 1;
        }
        assert(self.outcomes_history@.take(self.outcomes_history@.len() as int)
            =~= self.outcomes_history@);
        OutcomeHistory { outcomes }
    }

    /// The most that may be wagered in a round for a balance of the reserve.
    pub fn query_betting_limit(&self, reserve_balance: u128) -> (answer: Result<
        BettingLimit,
        StdError,
    >)
        ensures
            answer == (if self.config.max_betting_ratio == 0 {
                Err::<BettingLimit, StdError>(StdError::DivideByZero)
            } else {
                Ok::<BettingLimit, StdError>(
                    BettingLimit { limit: self.limit_for(reserve_balance) },
                )
            }),
    {
        match betting_limit(reserve_balance, self.config.max_betting_ratio) {
            Ok(limit) => Ok(BettingLimit { limit }),
            Err(e) => Err(e),
        }
    }

    /// Whether `result` is the answer to a question at time `now`: for each
    /// question, what the function that answers it returns.
    pub open spec fn is_query_result(
        &self,
        now: u64,
        randomness: LatestRandomness,
        reserve_balance: u128,
        msg: QueryMsg,
        result: Result<QueryResponse, StdError>,
    ) -> bool {
        match msg {
            QueryMsg::WinConfficients => result matches Ok(QueryResponse::WinCoefficients(answer))
                && self.is_coefficient_texts(answer),
            QueryMsg::PlayerRewards { addr } => result == Ok::<QueryResponse, StdError>(
                QueryResponse::PlayerRewards(Rewards { rewards: self.rewards.reward_of(addr@) }),
            ),
            QueryMsg::CurrentRound => result == Ok::<QueryResponse, StdError>(
                QueryResponse::CurrentRound(
                    CurrentRound {
                        round: self.timer.current_round,
                        status: self.status_at(now, randomness),
                        drand_round: self.timer.drand_round,
                    },
                ),
            ),
            QueryMsg::PlayerBetsForRound { addr, round } => result matches Ok(
                QueryResponse::PlayerBets(answer),
            ) && answer.round == round && match answer.bets {
                Some(bets) => bets_in(self.ledger.entries@, round, addr@) == Some(bets@),
                None => bets_in(self.ledger.entries@, round, addr@).is_none(),
            },
            QueryMsg::PlayerBetsAllRounds { addr } => result matches Ok(
                QueryResponse::PlayerBetsAllRounds(answer),
            ) && self.is_bets_of(addr@, answer@),
            QueryMsg::AllBets { last_evaluated_key, page_size } => result matches Ok(
                QueryResponse::AllBets(answer),
            ) && self.is_bets_page(last_evaluated_key, page_size, answer@),
            QueryMsg::OutcomeHistory => result matches Ok(QueryResponse::OutcomeHistory(answer))
                && answer.outcomes@ == self.outcomes_history@,
            QueryMsg::GetBettingLimit => result == (if self.config.max_betting_ratio == 0 {
                Err::<QueryResponse, StdError>(StdError::DivideByZero)
            } else {
                Ok::<QueryResponse, StdError>(
                    QueryResponse::BettingLimit(
                        BettingLimit { limit: self.limit_for(reserve_balance) },
                    ),
                )
            }),
            QueryMsg::GetActiveBettingLimit => match result {
                Ok(answer) => answer matches QueryResponse::BettingLimit(limit)
                    && self.spec_active_limit(now, randomness, reserve_balance) == Some(
                    limit.limit,
                ),
                Err(e) => self.spec_active_limit(now, randomness, reserve_balance).is_none() && e
                    == (if self.config.max_betting_ratio == 0 {
                    StdError::DivideByZero
                } else {
                    StdError::Overflow
                }),
            },
            QueryMsg::GetTotalRewards => result == Ok::<QueryResponse, StdError>(
                QueryResponse::TotalRewards(TotalRewards { total_rewards: self.rewards.total }),
            ),
        }
    }

    /// Answers a question at time `now`, given the latest randomness and the
    /// balance of the reserve.
    pub fn query(&self, now: u64, randomness: &LatestRandomness, reserve_balance: u128, msg: QueryMsg) -> (result:
        Result<QueryResponse, StdError>)
        requires
            self.wf(),
        ensures
            self.is_query_result(now, *randomness, reserve_balance, msg, result),
    {
        match msg {
            QueryMsg::WinConfficients => Ok(
                QueryResponse::WinCoefficients(self.query_win_coefficients()),
            ),
            QueryMsg::PlayerRewards { addr } => Ok(
                QueryResponse::PlayerRewards(self.query_player_rewards(&addr)),
            ),
            QueryMsg::CurrentRound => Ok(
                QueryResponse::CurrentRound(self.query_current_round(now, randomness)),
            ),
            QueryMsg::PlayerBetsForRound { addr, round } => Ok(
                QueryResponse::PlayerBets(self.query_bets_address_for_round(&addr, round)),
            ),
            QueryMsg::PlayerBetsAllRounds { addr } => Ok(
                QueryResponse::PlayerBetsAllRounds(self.query_bets_address(&addr)),
            ),
            QueryMsg::AllBets { last_evaluated_key, page_size } => Ok(
                QueryResponse::AllBets(self.query_all_bets(last_evaluated_key, page_size)),
            ),
            QueryMsg::OutcomeHistory => Ok(
                QueryResponse::OutcomeHistory(self.query_outcome_history()),
            ),
            QueryMsg::GetBettingLimit => match self.query_betting_limit(reserve_balance) {
                Ok(limit) => Ok(QueryResponse::BettingLimit(limit)),
                Err(e) => Err(e),
            },
            QueryMsg::GetActiveBettingLimit => match self.query_active_betting_limit(
                now,
                randomness,
                reserve_balance,
            ) {
                Ok(limit) => Ok(QueryResponse::BettingLimit(limit)),
                Err(e) => Err(e),
            },
            QueryMsg::GetTotalRewards => Ok(QueryResponse::TotalRewards(self.query_total_rewards())),
        }
    }

    /// The most that may still be wagered: while the round is live, the limit
    /// less what the round holds; else the whole limit, for the round to come.
    pub fn query_active_betting_limit(
        &self,
        now: u64,
        randomness: &LatestRandomness,
        reserve_balance: u128,
    ) -> (answer: Result<BettingLimit, StdError>)
        ensures
            match answer {
                Ok(limit) => self.spec_active_limit(now, *randomness, reserve_balance) == Some(
                    limit.limit,
                ),
                Err(e) => self.spec_active_limit(now, *randomness, reserve_balance).is_none() && e
                    == (if self.config.max_betting_ratio == 0 {
                    StdError::DivideByZero
                } else {
                    StdError::Overflow
                }),
            },
    {
        let exist_new_randomness = randomness.round > self.last_randomness_round;
        let limit = match betting_limit(reserve_balance, self.config.max_betting_ratio) {
            Ok(limit) => limit,
            Err(e) => { return Err(e); },
        };
        let total = match self.ledger.get_total_bets_round(self.timer.current_round()) {
            Ok(total) => total,
            Err(e) => { return Err(e); },
        };
        match self.timer.round_status(now, exist_new_randomness) {
            RoundStatus::Live => match limit.checked_sub(total) {
                Some(left) => Ok(BettingLimit { limit: left }),
                None => Err(StdError::Overflow),
            },
            _ => Ok(BettingLimit { limit }),
        }
    }
}

} // verus!
