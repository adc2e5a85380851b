//! The book of rewards that players have won and not yet claimed.

use vstd::prelude::*;

verus! {

/// What one player can claim.
#[derive(Clone, Debug, PartialEq, Eq)]
pub struct PlayerReward {
    pub player: String,
    pub amount: u128,
}

/// Every player's unclaimed reward, and their sum.
#[derive(Clone, Debug, PartialEq, Eq)]
pub struct RewardBook {
    pub players: Vec<PlayerReward>,
    pub total: u128,
}

/// The sum of all amounts in a list of rewards.
pub open spec fn amounts_sum(players: Seq<PlayerReward>) -> nat
    decreases players.len(),
{
    if players.len() == 0 {
        0
    } else {
        amounts_sum(players.drop_last()) + players.last().amount as nat
    }
}

/// Whether a list of rewards has an entry for `who`.
pub open spec fn has_player(players: Seq<PlayerReward>, who: Seq<char>) -> bool {
    exists|i: int| 0 <= i < players.len() && #[trigger] players[i].player@ == who
}

/// No player has two entries.
pub open spec fn distinct_players(players: Seq<PlayerReward>) -> bool {
    forall|i: int, j: int|
        0 <= i < j < players.len() ==> #[trigger] players[i].player@ != #[trigger] players[j].player@
}

/// What `who` can claim: the amount of their entry, or nothing without one.
pub open spec fn reward_in(players: Seq<PlayerReward>, who: Seq<char>) -> u128 {
    if has_player(players, who) {
        players[choose|i: int| 0 <= i < players.len() && #[trigger] players[i].player@ == who].amount
    } else {
        0
    }
}

/// Replacing one amount changes the sum by the difference.
pub proof fn lemma_sum_update(players: Seq<PlayerReward>, index: int, entry: PlayerReward)
    requires
        0 <= index < players.len(),
    ensures
        amounts_sum(players.update(index, entry)) == amounts_sum(players)
            - players[index].amount + entry.amount,
        players[index].amount <= amounts_sum(players),
    decreases players.len(),
{
    let updated = players.update(index, entry);
    if index == players.len() - 1 {
        assert(updated.drop_last() =~= players.drop_last());
    } else {
        assert(updated.drop_last() =~= players.drop_last().update(index, entry));
        lemma_sum_update(players.drop_last(), index, entry);
    }
}

/// A new entry adds its amount to the sum.
pub proof fn lemma_sum_push(players: Seq<PlayerReward>, entry: PlayerReward)
    ensures
        amounts_sum(players.push(entry)) == amounts_sum(players) + entry.amount,
{
    assert(players.push(entry).drop_last() =~= players);
}

/// With distinct players, the entry at `index` is what its player can claim.
pub proof fn lemma_reward_at(players: Seq<PlayerReward>, index: int)
    requires
        distinct_players(players),
        0 <= index < players.len(),
    ensures
        has_player(players, players[index].player@),
        reward_in(players, players[index].player@) == players[index].amount,
{
    let who = players[index].player@;
    let found = choose|i: int| 0 <= i < players.len() && #[trigger] players[i].player@ == who;
    if found < index {
        assert(players[found].player@ != players[index].player@);
    } else if index < found {
        assert(players[index].player@ != players[found].player@);
    }
}

impl RewardBook {
    /// The total equals the sum of all players' rewards, and no player has
    /// two entries.
    pub open spec fn wf(&self) -> bool {
        &&& self.total == amounts_sum(self.players@)
        &&& distinct_players(self.players@)
    }

    /// What `who` can claim.
    pub open spec fn reward_of(&self, who: Seq<char>) -> u128 {
        reward_in(self.players@, who)
    }

    /// A book without rewards.
    pub fn new() -> (book: RewardBook)
        ensures
            book.wf(),
            book.total == 0,
            book.players@.len() == 0,
    {
        RewardBook { players: Vec::new(), total: 0 }
    }

    /// The position of the entry of `who`, if there is one.
    pub fn position(&self, who: &String) -> (found: Option<usize>)
        ensures
            match found {
                Some(i) => i < self.players@.len() && self.players@[i as int].player@ == who@,
                None => !has_player(self.players@, who@),
            },
    {
        let mut i: usize = 0;
        while i < self.players.len()
            invariant
                i <= self.players@.len(),
                forall|j: int| 0 <= j < i ==> (#[trigger] self.players@[j]).player@ != who@,
            decreases self.players@.len() - i,
        {
            if self.players[i].player == *who {
                return Some(i);
            }
            i = i + 1;
        }
        None
    }

    /// What `who` can claim.
    pub fn reward(&self, who: &String) -> (amount: u128)
        requires
            self.wf(),
        ensures
            amount == self.reward_of(who@),
    {
        match self.position(who) {
            Some(i) => {
                proof {
                    lemma_reward_at(self.players@, i as int);
                }
                self.players[i].amount
            },
            None => 0,
        }
    }

    /// Adds `win` to what `who` can claim, and to the total.
    pub fn credit(&mut self, who: &String, win: u128)
        requires
            old(self).wf(),
            old(self).total + win <= u128::MAX,
        ensures
            final(self).wf(),
            final(self).total == old(self).total + win,
            final(self).reward_of(who@) == old(self).reward_of(who@) + win,
            forall|other: Seq<char>|
                other != who@ ==> final(self).reward_of(other) == old(self).reward_of(other),
    {
        let ghost before = self.players@;
        match self.position(who) {
            Some(i) => {
                proof {
                    lemma_reward_at(before, i as int);
                    lemma_sum_update(before, i as int, before[i as int]);
                }
                let amount: u128 = self.players[i].amount + win;
                let entry = PlayerReward { player: who.clone(), amount };
                proof {
                    lemma_sum_update(before, i as int, entry);
                }
                self.players.set(i, entry);
                self.total = self.total + win;
                proof {
                    let after = self.players@;
                    assert(after == before.update(i as int, entry));
                    assert forall|j: int| 0 <= j < after.len() implies (#[trigger] after[j]).player@
                        == before[j].player@ by {}
                    assert(distinct_players(after));
                    lemma_reward_at(after, i as int);
                    assert forall|other: Seq<char>| other != who@ implies reward_in(after, other)
                        == reward_in(before, other) by {
                        lemma_same_reward_elsewhere(before, after, i as int, other);
                    }
                }
            },
            None => {
                let entry = PlayerReward { player: who.clone(), amount: win };
                proof {
                    lemma_sum_push(before, entry);
                }
                self.players.push(entry);
                self.total = self.total + win;
                proof {
                    let after = self.players@;
                    assert(after == before.push(entry));
                    assert(distinct_players(after));
                    lemma_reward_at(after, after.len() - 1);
                    assert forall|other: Seq<char>| other != who@ implies reward_in(after, other)
                        == reward_in(before, other) by {
                        lemma_same_reward_after_push(before, entry, other);
                    }
                }
            },
        }
    }

    /// Hands out what `who` can claim: their reward becomes zero and the
    /// total falls by it. Nobody else's reward changes.
    pub fn claim(&mut self, who: &String) -> (reward: u128)
        requires
            old(self).wf(),
        ensures
            final(self).wf(),
            reward == old(self).reward_of(who@),
            final(self).reward_of(who@) == 0,
            final(self).total == old(self).total - reward,
            forall|other: Seq<char>|
                other != who@ ==> final(self).reward_of(other) == old(self).reward_of(other),
    {
        let ghost before = self.players@;
        match self.position(who) {
            Some(i) => {
                proof {
                    lemma_reward_at(before, i as int);
                }
                let reward: u128 = self.players[i].amount;
                let entry = PlayerReward { player: who.clone(), amount: 0 };
                proof {
                    lemma_sum_update(before, i as int, entry);
                }
                self.players.set(i, entry);
                self.total = self.total - reward;
                proof {
                    let after = self.players@;
                    assert(after == before.update(i as int, entry));
                    assert forall|j: int| 0 <= j < after.len() implies (#[trigger] after[j]).player@
                        == before[j].player@ by {}
                    assert(distinct_players(after));
                    lemma_reward_at(after, i as int);
                    assert forall|other: Seq<char>| other != who@ implies reward_in(after, other)
                        == reward_in(before, other) by {
                        lemma_same_reward_elsewhere(before, after, i as int, other);
                    }
                }
                reward
            },
            None => 0,
        }
    }
}

/// Changing the amount of one player's entry changes nobody else's reward.
proof fn lemma_same_reward_elsewhere(
    before: Seq<PlayerReward>,
    after: Seq<PlayerReward>,
    index: int,
    other: Seq<char>,
)
    requires
        0 <= index < before.len(),
        after.len() == before.len(),
        distinct_players(before),
        distinct_players(after),
        forall|j: int| 0 <= j < before.len() ==> (#[trigger] after[j]).player@ == before[j].player@,
        forall|j: int| 0 <= j < before.len() && j != index ==> (#[trigger] after[j]).amount == before[j].amount,
        other != before[index].player@,
    ensures
        reward_in(after, other) == reward_in(before, other),
{
    if has_player(before, other) {
        let found = choose|i: int| 0 <= i < before.len() && #[trigger] before[i].player@ == other;
        assert(after[found].player@ == other);
        lemma_reward_at(before, found);
        lemma_reward_at(after, found);
    } else if has_player(after, other) {
        let found = choose|i: int| 0 <= i < after.len() && #[trigger] after[i].player@ == other;
        assert(before[found].player@ == other);
    }
}

/// A new entry changes nobody else's reward.
proof fn lemma_same_reward_after_push(before: Seq<PlayerReward>, entry: PlayerReward, other: Seq<char>)
    requires
        distinct_players(before),
        distinct_players(before.push(entry)),
        other != entry.player@,
    ensures
        reward_in(before.push(entry), other) == reward_in(before, other),
{
    let after = before.push(entry);
    if has_player(before, other) {
        let found = choose|i: int| 0 <= i < before.len() && #[trigger] before[i].player@ == other;
        assert(after[found].player@ == other);
        lemma_reward_at(before, found);
        lemma_reward_at(after, found);
    } else if has_player(after, other) {
        let found = choose|i: int| 0 <= i < after.len() && #[trigger] after[i].player@ == other;
        assert(before[found].player@ == other);
    }
}

} // verus!
