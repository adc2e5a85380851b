//! Checks that a state read from storage is consistent before it is used.

use vstd::prelude::*;
use crate::game::GameKind;
use crate::ledger::{distinct_keys, is_entry_of, valid_outcomes, BetLedger};
use crate::reserve::{distinct_games, ReserveState};
use crate::rewards::{amounts_sum, distinct_players, PlayerReward, RewardBook};
use crate::settlement::{history_complete, GameState};

verus! {

/// The first `count` rewards sum to no more than all of them.
pub proof fn lemma_amounts_sum_prefix(players: Seq<PlayerReward>, count: int)
    requires
        0 <= count <= players.len(),
    ensures
        amounts_sum(players.take(count)) <= amounts_sum(players),
    decreases players.len(),
{
    if count == players.len() {
        assert(players.take(count) =~= players);
    } else {
        assert(players.take(count) =~= players.drop_last().take(count));
        lemma_amounts_sum_prefix(players.drop_last(), count);
    }
}

impl RewardBook {
    /// Whether the total is the sum of all rewards.
    pub fn total_is_sum(&self) -> (ok: bool)
        ensures
            ok == (self.total == amounts_sum(self.players@)),
    {
        let mut sum: u128 = 0;
        let mut i: usize = 0;
        assert(self.players@.take(0) =~= Seq::<PlayerReward>::empty());
        while i < self.players.len()
            invariant
                i <= self.players@.len(),
                sum == amounts_sum(self.players@.take(i as int)),
            decreases self.players@.len() - i,
        {
            proof {
                assert(self.players@.take(i + 1).drop_last() =~= self.players@.take(i as int));
                lemma_amounts_sum_prefix(self.players@, i + 1);
            }
            sum = match sum.checked_add(self.players[i].amount) {
                Some(s) => s,
                None => { return false; },
            };
            i = i + 1;
        }
        assert(self.players@.take(self.players@.len() as int) =~= self.players@);
        sum == self.total
    }

    /// Whether no player has two entries.
    pub fn has_distinct_players(&self) -> (ok: bool)
        ensures
            ok == distinct_players(self.players@),
    {
        let mut i: usize = 0;
        while i < self.players.len()
            invariant
                i <= self.players@.len(),
                forall|a: int, b: int|
                    0 <= a < i && a < b < self.players@.len() ==> (#[trigger] self.players@[a]).player@
                        != (#[trigger] self.players@[b]).player@,
            decreases self.players@.len() - i,
        {
            let mut j: usize = i + 1;
            while j < self.players.len()
                invariant
                    i < j <= self.players@.len(),
                    forall|b: int|
                        i < b < j ==> self.players@[i as int].player@ != (#[trigger] self.players@[b]).player@,
                decreases self.players@.len() - j,
            {
                if self.players[i].player == self.players[j].player {
                    return false;
                }
                j = j + 1;
            }
            i = i + 1;
        }
        true
    }

    /// Whether the book is well formed.
    pub fn is_wf(&self) -> (ok: bool)
        ensures
            ok == self.wf(),
    {
        self.total_is_sum() && self.has_distinct_players()
    }
}

impl BetLedger {
    /// Whether no player has two entries for one round.
    pub fn has_distinct_keys(&self) -> (ok: bool)
        ensures
            ok == distinct_keys(self.entries@),
    {
        let mut i: usize = 0;
        while i < self.entries.len()
            invariant
                i <= self.entries@.len(),
                forall|a: int, b: int|
                    0 <= a < i && a < b < self.entries@.len() ==> !is_entry_of(
                        #[trigger] self.entries@[b],
                        (#[trigger] self.entries@[a]).round,
                        self.entries@[a].player@,
                    ),
            decreases self.entries@.len() - i,
        {
            let mut j: usize = i + 1;
            while j < self.entries.len()
                invariant
                    i < j <= self.entries@.len(),
                    forall|b: int|
                        i < b < j ==> !is_entry_of(
                            #[trigger] self.entries@[b],
                            self.entries@[i as int].round,
                            self.entries@[i as int].player@,
                        ),
                decreases self.entries@.len() - j,
            {
                if self.entries[i].round == self.entries[j].round && self.entries[i].player
                    == self.entries[j].player {
                    assert(is_entry_of(
                        self.entries@[j as int],
                        self.entries@[i as int].round,
                        self.entries@[i as int].player@,
                    ));
                    return false;
                }
                j = j + 1;
            }
            i = i + 1;
        }
        true
    }

    /// Whether every bet names an outcome of the game.
    pub fn has_valid_outcomes(&self, kind: GameKind) -> (ok: bool)
        ensures
            ok == valid_outcomes(self.entries@, kind),
    {
        let mut i: usize = 0;
        while i < self.entries.len()
            invariant
                i <= self.entries@.len(),
                forall|a: int, k: int|
                    0 <= a < i && 0 <= k < self.entries@[a].bets@.len() ==> kind.valid_outcome(
                        (#[trigger] self.entries@[a].bets@[k]).0,
                    ),
            decreases self.entries@.len() - i,
        {
            let mut k: usize = 0;
            while k < self.entries[i].bets.len()
                invariant
                    i < self.entries@.len(),
                    k <= self.entries@[i as int].bets@.len(),
                    forall|c: int|
                        0 <= c < k ==> kind.valid_outcome(
                            (#[trigger] self.entries@[i as int].bets@[c]).0,
                        ),
                decreases self.entries@[i as int].bets@.len() - k,
            {
                let outcome: u8 = self.entries[i].bets[k].0;
                if outcome < kind.min_outcome() || kind.max_outcome() < outcome {
                    assert(!kind.valid_outcome(self.entries@[i as int].bets@[k as int].0));
                    return false;
                }
                k = k + 1;
            }
            i = i + 1;
        }
        true
    }

    /// Whether the ledger is well formed for the game.
    pub fn is_wf(&self, kind: GameKind) -> (ok: bool)
        ensures
            ok == self.wf(kind),
    {
        self.has_distinct_keys() && self.has_valid_outcomes(kind)
    }
}

impl GameState {
    /// Whether the history holds exactly the settled rounds.
    pub fn has_complete_history(&self) -> (ok: bool)
        ensures
            ok == history_complete(self.outcomes_history@, self.timer.current_round),
    {
        if self.outcomes_history.len() as u64 != self.timer.current_round {
            return false;
        }
        let mut i: usize = 0;
        while i < self.outcomes_history.len()
            invariant
                i <= self.outcomes_history@.len(),
                self.outcomes_history@.len() == self.timer.current_round,
                forall|j: int| 0 <= j < i ==> (#[trigger] self.outcomes_history@[j]).0 == j,
            decreases self.outcomes_history@.len() - i,
        {
            if self.outcomes_history[i].0 != i as u64 {
                return false;
            }
            i = i + 1;
        }
        true
    }

    /// Whether the state is consistent.
    pub fn is_wf(&self) -> (ok: bool)
        ensures
            ok == self.wf(),
    {
        self.config.win_coefficents.len() == self.kind.coefficient_count() && self.ledger.is_wf(
            self.kind,
        ) && self.rewards.is_wf() && self.has_complete_history()
    }
}

impl ReserveState {
    /// Whether no game is listed twice.
    pub fn is_wf(&self) -> (ok: bool)
        ensures
            ok == self.wf(),
    {
        let mut i: usize = 0;
        while i < self.games.len()
            invariant
                i <= self.games@.len(),
                forall|a: int, b: int|
                    0 <= a < i && a < b < self.games@.len() ==> (#[trigger] self.games@[a])@
                        != (#[trigger] self.games@[b])@,
            decreases self.games@.len() - i,
        {
            let mut j: usize = i + 1;
            while j < self.games.len()
                invariant
                    i < j <= self.games@.len(),
                    forall|b: int| i < b < j ==> self.games@[i as int]@ != (#[trigger] self.games@[b])@,
                decreases self.games@.len() - j,
            {
                if self.games[i] == self.games[j] {
                    return false;
                }
                j = j + 1;
            }
            i = i + 1;
        }
        true
    }
}

} // verus!
