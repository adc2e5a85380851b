//! The bet ledger: what every player has wagered in every round, and the
//! limits that a new bet has to respect.

use vstd::prelude::*;
use crate::error::{ContractError, StdError};
use crate::game::GameKind;

verus! {

/// The bets of one player in one round, in the order they were placed. A bet
/// is the outcome it names and the amount wagered.
#[derive(Clone, Debug, PartialEq, Eq)]
pub struct LedgerEntry {
    pub round: u64,
    pub player: String,
    pub bets: Vec<(u8, u128)>,
}

/// All bets of all rounds.
#[derive(Clone, Debug, PartialEq, Eq)]
pub struct BetLedger {
    pub entries: Vec<LedgerEntry>,
}

/// The sum of the amounts of a list of bets.
pub open spec fn bets_sum(bets: Seq<(u8, u128)>) -> nat
    decreases bets.len(),
{
    if bets.len() == 0 {
        0
    } else {
        bets_sum(bets.drop_last()) + bets.last().1 as nat
    }
}

/// The sum of all amounts wagered in `round`.
pub open spec fn round_sum(entries: Seq<LedgerEntry>, round: u64) -> nat
    decreases entries.len(),
{
    if entries.len() == 0 {
        0
    } else if entries.last().round == round {
        round_sum(entries.drop_last(), round) + bets_sum(entries.last().bets@)
    } else {
        round_sum(entries.drop_last(), round)
    }
}

/// Whether an entry holds the bets of `who` in `round`.
pub open spec fn is_entry_of(entry: LedgerEntry, round: u64, who: Seq<char>) -> bool {
    entry.round == round && entry.player@ == who
}

/// Whether `who` has placed a bet in `round`.
pub open spec fn has_entry(entries: Seq<LedgerEntry>, round: u64, who: Seq<char>) -> bool {
    exists|i: int| 0 <= i < entries.len() && is_entry_of(#[trigger] entries[i], round, who)
}

/// No player has two entries for one round.
pub open spec fn distinct_keys(entries: Seq<LedgerEntry>) -> bool {
    forall|i: int, j: int|
        0 <= i < j < entries.len() ==> !is_entry_of(
            #[trigger] entries[j],
            (#[trigger] entries[i]).round,
            entries[i].player@,
        )
}

/// The bets of `who` in `round`, if they placed any.
pub open spec fn bets_in(entries: Seq<LedgerEntry>, round: u64, who: Seq<char>) -> Option<
    Seq<(u8, u128)>,
> {
    if has_entry(entries, round, who) {
        Some(
            entries[choose|i: int|
                0 <= i < entries.len() && is_entry_of(#[trigger] entries[i], round, who)].bets@,
        )
    } else {
        None
    }
}

/// What `who` has wagered in `round`.
pub open spec fn committed(entries: Seq<LedgerEntry>, round: u64, who: Seq<char>) -> nat {
    match bets_in(entries, round, who) {
        Some(bets) => bets_sum(bets),
        None => 0,
    }
}

/// The number of bets that `who` has placed in `round`.
pub open spec fn bets_count(entries: Seq<LedgerEntry>, round: u64, who: Seq<char>) -> nat {
    match bets_in(entries, round, who) {
        Some(bets) => bets.len(),
        None => 0,
    }
}

/// Every bet names an outcome of the game.
pub open spec fn valid_outcomes(entries: Seq<LedgerEntry>, kind: GameKind) -> bool {
    forall|i: int, k: int|
        0 <= i < entries.len() && 0 <= k < entries[i].bets@.len() ==> kind.valid_outcome(
            (#[trigger] entries[i].bets@[k]).0,
        )
}

/// The amount that a new bet is held against: in the dice game everything
/// wagered in the round, in the coin flip what the player has wagered in it.
pub open spec fn exposure(kind: GameKind, entries: Seq<LedgerEntry>, round: u64, who: Seq<char>) -> nat {
    match kind {
        GameKind::DoubleDice => round_sum(entries, round),
        GameKind::Coinflip => committed(entries, round, who),
    }
}

/// Why a bet is refused, or `None` where it is accepted. The checks come in
/// this order: the outcome, the number of bets that the player has placed in
/// the round, be it none, the range of the sums, the limit.
pub open spec fn refusal(
    kind: GameKind,
    entries: Seq<LedgerEntry>,
    round: u64,
    who: Seq<char>,
    outcome: u8,
    amount: u128,
    max_number_of_bets: u64,
    total_bet_limit: u128,
) -> Option<ContractError> {
    if !kind.valid_outcome(outcome) {
        Some(
            ContractError::InvalidBetPosition {
                current_position: outcome,
                min_position: kind.spec_min_outcome(),
                max_position: kind.spec_max_outcome(),
            },
        )
    } else if kind == GameKind::DoubleDice && round_sum(entries, round) > u128::MAX {
        Some(ContractError::Std(StdError::Overflow))
    } else if bets_count(entries, round, who) >= max_number_of_bets {
        Some(
            ContractError::MaxAmountOfBetsThisRound {
                bets_this_round: bets_count(entries, round, who) as u128,
                max_bets_per_round: max_number_of_bets as u128,
            },
        )
    } else if exposure(kind, entries, round, who) + amount > u128::MAX {
        Some(ContractError::Std(StdError::Overflow))
    } else if exposure(kind, entries, round, who) + amount > total_bet_limit {
        Some(
            ContractError::BetAmountExceedsLimit {
                current_bet: amount,
                total_bet: exposure(kind, entries, round, who) as u128,
                total_bet_limit,
            },
        )
    } else {
        None
    }
}

/// A new bet adds its amount to the sum.
pub proof fn lemma_bets_sum_push(bets: Seq<(u8, u128)>, bet: (u8, u128))
    ensures
        bets_sum(bets.push(bet)) == bets_sum(bets) + bet.1,
{
    assert(bets.push(bet).drop_last() =~= bets);
}

/// The first `count` bets sum to no more than all of them.
pub proof fn lemma_bets_sum_prefix(bets: Seq<(u8, u128)>, count: int)
    requires
        0 <= count <= bets.len(),
    ensures
        bets_sum(bets.take(count)) <= bets_sum(bets),
    decreases bets.len(),
{
    if count == bets.len() {
        assert(bets.take(count) =~= bets);
    } else {
        assert(bets.take(count) =~= bets.drop_last().take(count));
        lemma_bets_sum_prefix(bets.drop_last(), count);
    }
}

/// A new entry adds its bets to the sum of its round and to no other.
pub proof fn lemma_round_sum_push(entries: Seq<LedgerEntry>, entry: LedgerEntry, round: u64)
    ensures
        round_sum(entries.push(entry), round) == round_sum(entries, round) + (if entry.round
            == round {
            bets_sum(entry.bets@)
        } else {
            0
        }),
{
    assert(entries.push(entry).drop_last() =~= entries);
}

/// The first `count` entries sum to no more than all of them.
pub proof fn lemma_round_sum_prefix(entries: Seq<LedgerEntry>, count: int, round: u64)
    requires
        0 <= count <= entries.len(),
    ensures
        round_sum(entries.take(count), round) <= round_sum(entries, round),
    decreases entries.len(),
{
    if count == entries.len() {
        assert(entries.take(count) =~= entries);
    } else {
        assert(entries.take(count) =~= entries.drop_last().take(count));
        lemma_round_sum_prefix(entries.drop_last(), count, round);
    }
}

/// Replacing the bets of one entry changes the sum of its round by the
/// difference, and an entry's bets are part of the sum of its round.
pub proof fn lemma_round_sum_update(
    entries: Seq<LedgerEntry>,
    index: int,
    entry: LedgerEntry,
    round: u64,
)
    requires
        0 <= index < entries.len(),
        entry.round == entries[index].round,
    ensures
        round_sum(entries.update(index, entry), round) == round_sum(entries, round) + (
        if entry.round == round {
            bets_sum(entry.bets@) - bets_sum(entries[index].bets@)
        } else {
            0
        }),
        entries[index].round == round ==> bets_sum(entries[index].bets@) <= round_sum(
            entries,
            round,
        ),
    decreases entries.len(),
{
    let updated = entries.update(index, entry);
    if index == entries.len() - 1 {
        assert(updated.drop_last() =~= entries.drop_last());
    } else {
        assert(updated.drop_last() =~= entries.drop_last().update(index, entry));
        lemma_round_sum_update(entries.drop_last(), index, entry, round);
    }
}

/// With distinct keys, the entry at `index` holds its player's bets of its
/// round.
pub proof fn lemma_entry_at(entries: Seq<LedgerEntry>, index: int)
    requires
        distinct_keys(entries),
        0 <= index < entries.len(),
    ensures
        has_entry(entries, entries[index].round, entries[index].player@),
        bets_in(entries, entries[index].round, entries[index].player@) == Some(
            entries[index].bets@,
        ),
{
    let round = entries[index].round;
    let who = entries[index].player@;
    assert(is_entry_of(entries[index], round, who));
    let found = choose|i: int|
        0 <= i < entries.len() && is_entry_of(#[trigger] entries[i], round, who);
    if found < index {
        assert(!is_entry_of(entries[index], entries[found].round, entries[found].player@));
    } else if index < found {
        assert(!is_entry_of(entries[found], entries[index].round, entries[index].player@));
    }
}

/// Where two ledgers have the same keys at the same places and differ in the
/// bets of one entry only, every other player and round has the same bets.
pub proof fn lemma_same_bets_elsewhere(
    before: Seq<LedgerEntry>,
    after: Seq<LedgerEntry>,
    index: int,
    round: u64,
    who: Seq<char>,
)
    requires
        0 <= index <= before.len(),
        before.len() <= after.len() <= before.len() + 1,
        after.len() == before.len() + 1 ==> index == before.len(),
        index < after.len(),
        distinct_keys(before),
        distinct_keys(after),
        forall|j: int|
            0 <= j < before.len() ==> (#[trigger] after[j]).round == before[j].round
                && after[j].player@ == before[j].player@,
        forall|j: int|
            0 <= j < before.len() && j != index ==> (#[trigger] after[j]).bets@ == before[j].bets@,
        !is_entry_of(after[index], round, who),
    ensures
        bets_in(after, round, who) == bets_in(before, round, who),
{
    if has_entry(before, round, who) {
        let found = choose|i: int|
            0 <= i < before.len() && is_entry_of(#[trigger] before[i], round, who);
        assert(is_entry_of(after[found], round, who));
        lemma_entry_at(before, found);
        lemma_entry_at(after, found);
    } else if has_entry(after, round, who) {
        let found = choose|i: int|
            0 <= i < after.len() && is_entry_of(#[trigger] after[i], round, who);
        assert(is_entry_of(before[found], round, who));
    }
}

/// The sum of the amounts of a list of bets, where it fits 128 bits.
pub fn bets_total(bets: &Vec<(u8, u128)>) -> (total: Result<u128, StdError>)
    ensures
        total == (if bets_sum(bets@) <= u128::MAX {
            Ok::<u128, StdError>(bets_sum(bets@) as u128)
        } else {
            Err::<u128, StdError>(StdError::Overflow)
        }),
{
    let mut sum: u128 = 0;
    let mut i: usize = 0;
    assert(bets@.take(0) =~= Seq::<(u8, u128)>::empty());
    while i < bets.len()
        invariant
            i <= bets@.len(),
            sum == bets_sum(bets@.take(i as int)),
        decreases bets@.len() - i,
    {
        proof {
            assert(bets@.take(i + 1).drop_last() =~= bets@.take(i as int));
            lemma_bets_sum_prefix(bets@, i + 1);
        }
        match sum.checked_add(bets[i].1) {
            Some(s) => {
                sum = s;
            },
            None => {
                return Err(StdError::Overflow);
            },
        }
        i = i + 1;
    }
    assert(bets@.take(bets@.len() as int) =~= bets@);
    Ok(sum)
}

/// The limit on the exposure of a round: the reserve's balance divided by the
/// betting ratio.
pub fn betting_limit(reserve_balance: u128, max_betting_ratio: u64) -> (limit: Result<
    u128,
    StdError,
>)
    ensures
        limit == (if max_betting_ratio == 0 {
            Err::<u128, StdError>(StdError::DivideByZero)
        } else {
            Ok::<u128, StdError>((reserve_balance / max_betting_ratio as u128) as u128)
        }),
{
    if max_betting_ratio == 0 {
        Err(StdError::DivideByZero)
    } else {
        Ok(reserve_balance / (max_betting_ratio as u128))
    }
}

impl BetLedger {
    /// No player has two entries for one round, and every bet names an
    /// outcome of the game.
    pub open spec fn wf(&self, kind: GameKind) -> bool {
        &&& distinct_keys(self.entries@)
        &&& valid_outcomes(self.entries@, kind)
    }

    /// A ledger without bets.
    pub fn new() -> (ledger: BetLedger)
        ensures
            ledger.entries@.len() == 0,
            forall|kind: GameKind| ledger.wf(kind),
    {
        BetLedger { entries: Vec::new() }
    }

    /// The position of the entry of `who` for `round`, if there is one.
    pub fn position(&self, round: u64, who: &String) -> (found: Option<usize>)
        ensures
            match found {
                Some(i) => i < self.entries@.len() && is_entry_of(
                    self.entries@[i as int],
                    round,
                    who@,
                ),
                None => !has_entry(self.entries@, round, who@),
            },
    {
        let mut i: usize = 0;
        while i < self.entries.len()
            invariant
                i <= self.entries@.len(),
                forall|j: int| 0 <= j < i ==> !is_entry_of(#[trigger] self.entries@[j], round, who@),
            decreases self.entries@.len() - i,
        {
            if self.entries[i].round == round && self.entries[i].player == *who {
                return Some(i);
            }
            i = i + 1;
        }
        None
    }

    /// The bets of `who` in `round`, if they placed any.
    pub fn player_bets(&self, round: u64, who: &String) -> (bets: Option<&Vec<(u8, u128)>>)
        requires
            distinct_keys(self.entries@),
        ensures
            match bets {
                Some(b) => bets_in(self.entries@, round, who@) == Some(b@),
                None => bets_in(self.entries@, round, who@).is_none(),
            },
    {
        match self.position(round, who) {
            Some(i) => {
                proof {
                    lemma_entry_at(self.entries@, i as int);
                }
                Some(&self.entries[i].bets)
            },
            None => None,
        }
    }

    /// The sum of all amounts wagered in `round`, where it fits 128 bits.
    pub fn get_total_bets_round(&self, round: u64) -> (total: Result<u128, StdError>)
        ensures
            total == (if round_sum(self.entries@, round) <= u128::MAX {
                Ok::<u128, StdError>(round_sum(self.entries@, round) as u128)
            } else {
                Err::<u128, StdError>(StdError::Overflow)
            }),
    {
        let mut sum: u128 = 0;
        let mut i: usize = 0;
        assert(self.entries@.take(0) =~= Seq::<LedgerEntry>::empty());
        while i < self.entries.len()
            invariant
                i <= self.entries@.len(),
                sum == round_sum(self.entries@.take(i as int), round),
            decreases self.entries@.len() - i,
        {
            proof {
                assert(self.entries@.take(i + 1).drop_last() =~= self.entries@.take(i as int));
                lemma_round_sum_prefix(self.entries@, i + 1, round);
            }
            if self.entries[i].round == round {
                let part = match bets_total(&self.entries[i].bets) {
                    Ok(part) => part,
                    Err(e) => { return Err(e); },
                };
                match sum.checked_add(part) {
                    Some(s) => {
                        sum = s;
                    },
                    None => {
                        return Err(StdError::Overflow);
                    },
                }
            }
            i = i + 1;
        }
        assert(self.entries@.take(self.entries@.len() as int) =~= self.entries@);
        Ok(sum)
    }

    /// Records a bet of `amount` on `outcome` by `who` in `round`, unless a
    /// check refuses it. A refused bet leaves the ledger as it was. After an
    /// accepted bet the exposure it was held against, and with it what the
    /// player has wagered in the round, is within the limit.
    pub fn place_bet(
        &mut self,
        kind: GameKind,
        round: u64,
        who: &String,
        outcome: u8,
        amount: u128,
        max_number_of_bets: u64,
        total_bet_limit: u128,
    ) -> (result: Result<(), ContractError>)
        requires
            old(self).wf(kind),
        ensures
            final(self).wf(kind),
            result == (match refusal(
                kind,
                old(self).entries@,
                round,
                who@,
                outcome,
                amount,
                max_number_of_bets,
                total_bet_limit,
            ) {
                Some(e) => Err::<(), ContractError>(e),
                None => Ok::<(), ContractError>(()),
            }),
            result.is_err() ==> final(self).entries@ == old(self).entries@,
            result.is_ok() ==> {
                &&& bets_in(final(self).entries@, round, who@) == Some(
                    (match bets_in(old(self).entries@, round, who@) {
                        Some(bets) => bets,
                        None => Seq::empty(),
                    }).push((outcome, amount)),
                )
                &&& round_sum(final(self).entries@, round) == round_sum(old(self).entries@, round)
                    + amount
                &&& committed(final(self).entries@, round, who@) == committed(
                    old(self).entries@,
                    round,
                    who@,
                ) + amount
                &&& exposure(kind, final(self).entries@, round, who@) <= total_bet_limit
                &&& committed(final(self).entries@, round, who@) <= total_bet_limit
                &&& forall|other_round: u64, other: Seq<char>|
                    !(other_round == round && other == who@) ==> bets_in(
                        final(self).entries@,
                        other_round,
                        other,
                    ) == bets_in(old(self).entries@, other_round, other)
                &&& forall|other_round: u64|
                    other_round != round ==> round_sum(final(self).entries@, other_round)
                        == round_sum(old(self).entries@, other_round)
            },
    {
        let ghost before = self.entries@;
        if outcome < kind.min_outcome() || kind.max_outcome() < outcome {
            return Err(
                ContractError::InvalidBetPosition {
                    current_position: outcome,
                    min_position: kind.min_outcome(),
                    max_position: kind.max_outcome(),
                },
            );
        }
        let round_total: u128 = match kind {
            GameKind::DoubleDice => match self.get_total_bets_round(round) {
                Ok(t) => t,
                Err(e) => { return Err(ContractError::Std(e)); },
            },
            GameKind::Coinflip => 0,
        };
        match self.position(round, who) {
            Some(i) => {
                proof {
                    lemma_entry_at(before, i as int);
                    lemma_round_sum_update(before, i as int, before[i as int], round);
                }
                let count: usize = self.entries[i].bets.len();
                if count as u64 >= max_number_of_bets {
                    return Err(
                        ContractError::MaxAmountOfBetsThisRound {
                            bets_this_round: count as u128,
                            max_bets_per_round: max_number_of_bets as u128,
                        },
                    );
                }
                let total_bet: u128 = match kind {
                    GameKind::DoubleDice => round_total,
                    GameKind::Coinflip => match bets_total(&self.entries[i].bets) {
                        Ok(t) => t,
                        Err(e) => { return Err(ContractError::Std(e)); },
                    },
                };
                let sum: u128 = match total_bet.checked_add(amount) {
                    Some(s) => s,
                    None => { return Err(ContractError::Std(StdError::Overflow)); },
                };
                if sum > total_bet_limit {
                    return Err(
                        ContractError::BetAmountExceedsLimit {
                            current_bet: amount,
                            total_bet,
                            total_bet_limit,
                        },
                    );
                }
                let mut entry = self.entries.remove(i);
                entry.bets.push((outcome, amount));
                proof {
                    lemma_bets_sum_push(before[i as int].bets@, (outcome, amount));
                    lemma_round_sum_update(before, i as int, entry, round);
                }
                self.entries.insert(i, entry);
                proof {
                    let after = self.entries@;
                    assert(after =~= before.update(i as int, entry));
                    assert(distinct_keys(after)) by {
                        assert forall|a: int, b: int| 0 <= a < b < after.len() implies !is_entry_of(
                            #[trigger] after[b],
                            (#[trigger] after[a]).round,
                            after[a].player@,
                        ) by {
                            assert(!is_entry_of(before[b], before[a].round, before[a].player@));
                        }
                    }
                    assert(valid_outcomes(after, kind)) by {
                        assert forall|a: int, k: int|
                            0 <= a < after.len() && 0 <= k < after[a].bets@.len() implies kind.valid_outcome(
                            (#[trigger] after[a].bets@[k]).0,
                        ) by {
                            if a == i as int && k < before[a].bets@.len() {
                                assert(kind.valid_outcome(before[a].bets@[k].0));
                            } else if a != i as int {
                                assert(kind.valid_outcome(before[a].bets@[k].0));
                            }
                        }
                    }
                    lemma_entry_at(after, i as int);
                    assert forall|other_round: u64, other: Seq<char>|
                        !(other_round == round && other == who@) implies bets_in(
                        after,
                        other_round,
                        other,
                    ) == bets_in(before, other_round, other) by {
                        lemma_same_bets_elsewhere(before, after, i as int, other_round, other);
                    }
                    assert forall|other_round: u64| other_round != round implies round_sum(
                        after,
                        other_round,
                    ) == round_sum(before, other_round) by {
                        lemma_round_sum_update(before, i as int, entry, other_round);
                    }
                }
                Ok(())
            },
            None => {
                if max_number_of_bets == 0 {
                    return Err(
                        ContractError::MaxAmountOfBetsThisRound {
                            bets_this_round: 0,
                            max_bets_per_round: 0,
                        },
                    );
                }
                let total_bet: u128 = round_total;
                let sum: u128 = match total_bet.checked_add(amount) {
                    Some(s) => s,
                    None => { return Err(ContractError::Std(StdError::Overflow)); },
                };
                if sum > total_bet_limit {
                    return Err(
                        ContractError::BetAmountExceedsLimit {
                            current_bet: amount,
                            total_bet,
                            total_bet_limit,
                        },
                    );
                }
                let mut bets: Vec<(u8, u128)> = Vec::new();
                bets.push((outcome, amount));
                let entry = LedgerEntry { round, player: who.clone(), bets };
                proof {
                    lemma_bets_sum_push(Seq::<(u8, u128)>::empty(), (outcome, amount));
                    lemma_round_sum_push(before, entry, round);
                    assert(entry.bets@ =~= Seq::<(u8, u128)>::empty().push((outcome, amount)));
                }
                self.entries.push(entry);
                proof {
                    let after = self.entries@;
                    assert(after =~= before.push(entry));
                    assert(distinct_keys(after)) by {
                        assert forall|a: int, b: int| 0 <= a < b < after.len() implies !is_entry_of(
                            #[trigger] after[b],
                            (#[trigger] after[a]).round,
                            after[a].player@,
                        ) by {
                            if b < before.len() {
                                assert(!is_entry_of(before[b], before[a].round, before[a].player@));
                            } else {
                                assert(!is_entry_of(before[a], round, who@));
                            }
                        }
                    }
                    assert(valid_outcomes(after, kind)) by {
                        assert forall|a: int, k: int|
                            0 <= a < after.len() && 0 <= k < after[a].bets@.len() implies kind.valid_outcome(
                            (#[trigger] after[a].bets@[k]).0,
                        ) by {
                            if a < before.len() {
                                assert(kind.valid_outcome(before[a].bets@[k].0));
                            }
                        }
                    }
                    lemma_entry_at(after, before.len() as int);
                    assert forall|other_round: u64, other: Seq<char>|
                        !(other_round == round && other == who@) implies bets_in(
                        after,
                        other_round,
                        other,
                    ) == bets_in(before, other_round, other) by {
                        lemma_same_bets_elsewhere(
                            before,
                            after,
                            before.len() as int,
                            other_round,
                            other,
                        );
                    }
                    assert forall|other_round: u64| other_round != round implies round_sum(
                        after,
                        other_round,
                    ) == round_sum(before, other_round) by {
                        lemma_round_sum_push(before, entry, other_round);
                    }
                }
                Ok(())
            },
        }
    }
}

} // verus!
