//! What the bets of a settled round win.

use vstd::prelude::*;
use crate::decimal::{checked_mul_floor, Decimal};
use crate::game::GameKind;
use crate::ledger::{
    bets_in, distinct_keys, has_entry, is_entry_of, lemma_entry_at, lemma_same_bets_elsewhere,
    LedgerEntry,
};

verus! {

/// What a winning bet of `stake` pays: the stake, plus the stake times the
/// win coefficient times the share left after the tax on wins, each product
/// rounded down. `None` where a step leaves the 128-bit range.
pub open spec fn spec_win_amount(stake: u128, coefficient: Decimal, win_tax: Decimal) -> Option<u128> {
    match checked_mul_floor(stake, coefficient) {
        None => None,
        Some(gross) => match checked_mul_floor(gross, win_tax) {
            None => None,
            Some(taxed) => if stake + taxed <= u128::MAX {
                Some((stake + taxed) as u128)
            } else {
                None
            },
        },
    }
}

/// What a list of bets wins in a round whose outcome is `rolled`: the sum of
/// what its winning bets pay. `None` where a payment or the sum leaves the
/// 128-bit range.
pub open spec fn winnings(
    kind: GameKind,
    coefficients: Seq<Decimal>,
    win_tax: Decimal,
    rolled: u8,
    bets: Seq<(u8, u128)>,
) -> Option<u128>
    decreases bets.len(),
{
    if bets.len() == 0 {
        Some(0)
    } else {
        match winnings(kind, coefficients, win_tax, rolled, bets.drop_last()) {
            None => None,
            Some(sum) => if kind.spec_wins(bets.last().0, rolled) {
                match spec_win_amount(
                    bets.last().1,
                    coefficients[kind.spec_coefficient_index(bets.last().0)],
                    win_tax,
                ) {
                    None => None,
                    Some(win) => if sum + win <= u128::MAX {
                        Some((sum + win) as u128)
                    } else {
                        None
                    },
                }
            } else {
                Some(sum)
            },
        }
    }
}

/// What an entry wins, counted as nothing where it does not fit.
pub open spec fn entry_win(
    kind: GameKind,
    coefficients: Seq<Decimal>,
    win_tax: Decimal,
    rolled: u8,
    entry: LedgerEntry,
) -> nat {
    match winnings(kind, coefficients, win_tax, rolled, entry.bets@) {
        Some(win) => win as nat,
        None => 0,
    }
}

/// Whether the winnings of every entry of `round` fit 128 bits.
pub open spec fn wins_fit(
    kind: GameKind,
    coefficients: Seq<Decimal>,
    win_tax: Decimal,
    rolled: u8,
    entries: Seq<LedgerEntry>,
    round: u64,
) -> bool {
    forall|i: int|
        0 <= i < entries.len() && (#[trigger] entries[i]).round == round ==> winnings(
            kind,
            coefficients,
            win_tax,
            rolled,
            entries[i].bets@,
        ).is_some()
}

/// The sum of what all entries of `round` win.
pub open spec fn total_win(
    kind: GameKind,
    coefficients: Seq<Decimal>,
    win_tax: Decimal,
    rolled: u8,
    entries: Seq<LedgerEntry>,
    round: u64,
) -> nat
    decreases entries.len(),
{
    if entries.len() == 0 {
        0
    } else if entries.last().round == round {
        total_win(kind, coefficients, win_tax, rolled, entries.drop_last(), round) + entry_win(
            kind,
            coefficients,
            win_tax,
            rolled,
            entries.last(),
        )
    } else {
        total_win(kind, coefficients, win_tax, rolled, entries.drop_last(), round)
    }
}

/// The sum of what the entries of `who` in `round` win.
pub open spec fn player_win(
    kind: GameKind,
    coefficients: Seq<Decimal>,
    win_tax: Decimal,
    rolled: u8,
    entries: Seq<LedgerEntry>,
    round: u64,
    who: Seq<char>,
) -> nat
    decreases entries.len(),
{
    if entries.len() == 0 {
        0
    } else if entries.last().round == round && entries.last().player@ == who {
        player_win(kind, coefficients, win_tax, rolled, entries.drop_last(), round, who)
            + entry_win(kind, coefficients, win_tax, rolled, entries.last())
    } else {
        player_win(kind, coefficients, win_tax, rolled, entries.drop_last(), round, who)
    }
}

/// Where a list of bets has winnings that fit, so has each of its prefixes.
pub proof fn lemma_winnings_prefix(
    kind: GameKind,
    coefficients: Seq<Decimal>,
    win_tax: Decimal,
    rolled: u8,
    bets: Seq<(u8, u128)>,
    count: int,
)
    requires
        0 <= count <= bets.len(),
        winnings(kind, coefficients, win_tax, rolled, bets).is_some(),
    ensures
        winnings(kind, coefficients, win_tax, rolled, bets.take(count)).is_some(),
    decreases bets.len(),
{
    if count == bets.len() {
        assert(bets.take(count) =~= bets);
    } else {
        assert(bets.take(count) =~= bets.drop_last().take(count));
        lemma_winnings_prefix(kind, coefficients, win_tax, rolled, bets.drop_last(), count);
    }
}

/// The first `count` entries win no more than all of them.
pub proof fn lemma_total_win_prefix(
    kind: GameKind,
    coefficients: Seq<Decimal>,
    win_tax: Decimal,
    rolled: u8,
    entries: Seq<LedgerEntry>,
    round: u64,
    count: int,
)
    requires
        0 <= count <= entries.len(),
    ensures
        total_win(kind, coefficients, win_tax, rolled, entries.take(count), round) <= total_win(
            kind,
            coefficients,
            win_tax,
            rolled,
            entries,
            round,
        ),
    decreases entries.len(),
{
    if count == entries.len() {
        assert(entries.take(count) =~= entries);
    } else {
        assert(entries.take(count) =~= entries.drop_last().take(count));
        lemma_total_win_prefix(
            kind,
            coefficients,
            win_tax,
            rolled,
            entries.drop_last(),
            round,
            count,
        );
    }
}

/// In a ledger without double entries, what a player wins in a round is what
/// their bets of that round win.
pub proof fn lemma_player_win_is_win_of_their_bets(
    kind: GameKind,
    coefficients: Seq<Decimal>,
    win_tax: Decimal,
    rolled: u8,
    entries: Seq<LedgerEntry>,
    round: u64,
    who: Seq<char>,
)
    requires
        distinct_keys(entries),
    ensures
        player_win(kind, coefficients, win_tax, rolled, entries, round, who) == (match bets_in(
            entries,
            round,
            who,
        ) {
            Some(bets) => match winnings(kind, coefficients, win_tax, rolled, bets) {
                Some(win) => win as nat,
                None => 0,
            },
            None => 0,
        }),
    decreases entries.len(),
{
    if entries.len() > 0 {
        let rest = entries.drop_last();
        let last = entries.last();
        assert(distinct_keys(rest)) by {
            assert forall|i: int, j: int| 0 <= i < j < rest.len() implies !is_entry_of(
                #[trigger] rest[j],
                (#[trigger] rest[i]).round,
                rest[i].player@,
            ) by {
                assert(!is_entry_of(entries[j], entries[i].round, entries[i].player@));
            }
        }
        lemma_player_win_is_win_of_their_bets(
            kind,
            coefficients,
            win_tax,
            rolled,
            rest,
            round,
            who,
        );
        if last.round == round && last.player@ == who {
            lemma_entry_at(entries, entries.len() - 1);
            if has_entry(rest, round, who) {
                let i = choose|i: int|
                    0 <= i < rest.len() && is_entry_of(#[trigger] rest[i], round, who);
                assert(!is_entry_of(
                    entries[entries.len() - 1],
                    entries[i].round,
                    entries[i].player@,
                ));
            }
        } else {
            lemma_same_bets_elsewhere(rest, entries, rest.len() as int, round, who);
        }
    } else {
        assert(!has_entry(entries, round, who));
    }
}

/// What a winning bet of `stake` pays.
pub fn win_amount(stake: u128, coefficient: Decimal, win_tax: Decimal) -> (win: Option<u128>)
    ensures
        win == spec_win_amount(stake, coefficient, win_tax),
{
    let gross = match coefficient.checked_mul_uint(stake) {
        Some(gross) => gross,
        None => { return None; },
    };
    let taxed = match win_tax.checked_mul_uint(gross) {
        Some(taxed) => taxed,
        None => { return None; },
    };
    stake.checked_add(taxed)
}

/// What a list of bets wins in a round whose outcome is `rolled`.
pub fn player_winnings(
    kind: GameKind,
    coefficients: &Vec<Decimal>,
    win_tax: Decimal,
    rolled: u8,
    bets: &Vec<(u8, u128)>,
) -> (total: Option<u128>)
    requires
        coefficients@.len() == kind.spec_coefficient_count(),
        forall|k: int| 0 <= k < bets@.len() ==> kind.valid_outcome((#[trigger] bets@[k]).0),
    ensures
        total == winnings(kind, coefficients@, win_tax, rolled, bets@),
{
    let mut sum: u128 = 0;
    let mut i: usize = 0;
    assert(bets@.take(0) =~= Seq::<(u8, u128)>::empty());
    while i < bets.len()
        invariant
            i <= bets@.len(),
            coefficients@.len() == kind.spec_coefficient_count(),
            forall|k: int| 0 <= k < bets@.len() ==> kind.valid_outcome((#[trigger] bets@[k]).0),
            winnings(kind, coefficients@, win_tax, rolled, bets@.take(i as int)) == Some(sum),
        decreases bets@.len() - i,
    {
        let bet = bets[i];
        proof {
            assert(bets@.take(i + 1).drop_last() =~= bets@.take(i as int));
            assert(bets@.take(i + 1).last() == bets@[i as int]);
            assert(kind.valid_outcome(bets@[i as int].0));
            if winnings(kind, coefficients@, win_tax, rolled, bets@).is_some() {
                lemma_winnings_prefix(kind, coefficients@, win_tax, rolled, bets@, i + 1);
            }
        }
        if kind.wins(bet.0, rolled) {
            let coefficient = coefficients[kind.coefficient_index(bet.0)];
            let win = match win_amount(bet.1, coefficient, win_tax) {
                Some(win) => win,
                None => { return None; },
            };
            sum = match sum.checked_add(win) {
                Some(s) => s,
                None => { return None; },
            };
        }
        i = i + 1;
    }
    assert(bets@.take(bets@.len() as int) =~= bets@);
    Some(sum)
}

} // verus!
