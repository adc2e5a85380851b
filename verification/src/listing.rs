//! The listing of all bets by pages: entries in the order of their keys, a
//! key being the round and, within a round, the bytes of the player's address.

use vstd::prelude::*;
use vstd::utf8::encode_utf8;
use crate::ledger::{BetLedger, LedgerEntry};

verus! {

/// The number of entries on a page where none is asked for.
pub const DEFAULT_PAGE_SIZE: u16 = 50;

/// Whether `a` comes before `b` in the order of byte strings: at the first
/// place where they differ `a` has the lower byte, or `a` ends there.
pub open spec fn bytes_less(a: Seq<u8>, b: Seq<u8>) -> bool
    decreases a.len(),
{
    if b.len() == 0 {
        false
    } else if a.len() == 0 {
        true
    } else if a[0] != b[0] {
        a[0] < b[0]
    } else {
        bytes_less(a.skip(1), b.skip(1))
    }
}

/// Whether the key of round `r1` and address `a1` comes before that of round
/// `r2` and address `a2`.
pub open spec fn key_less(r1: u64, a1: Seq<u8>, r2: u64, a2: Seq<u8>) -> bool {
    r1 < r2 || (r1 == r2 && bytes_less(a1, a2))
}

/// The bytes of the address of an entry's player.
pub open spec fn address_bytes(entry: LedgerEntry) -> Seq<u8> {
    encode_utf8(entry.player@)
}

/// Whether the key of `x` comes before the key of `y`.
pub open spec fn entry_less(x: LedgerEntry, y: LedgerEntry) -> bool {
    key_less(x.round, address_bytes(x), y.round, address_bytes(y))
}

/// Whether two entries have the same key.
pub open spec fn same_key(x: LedgerEntry, y: LedgerEntry) -> bool {
    x.round == y.round && address_bytes(x) == address_bytes(y)
}

/// Whether the key of `entry` comes after the bound, where there is one.
pub open spec fn above(bound: Option<(u64, String)>, entry: LedgerEntry) -> bool {
    match bound {
        None => true,
        Some((round, address)) => key_less(
            round,
            encode_utf8(address@),
            entry.round,
            address_bytes(entry),
        ),
    }
}

/// Whether the entry at `index` is above the bound.
pub open spec fn is_above(entries: Seq<LedgerEntry>, bound: Option<(u64, String)>, index: int) -> bool {
    above(bound, entries[index])
}

/// Whether a key equal to that of the entry at `index` is listed.
pub open spec fn is_listed(entries: Seq<LedgerEntry>, positions: Seq<usize>, index: int) -> bool {
    exists|k: int|
        0 <= k < positions.len() && same_key(entries[(#[trigger] positions[k]) as int], entries[index])
}

/// Whether the entry at `index` comes after everything listed so far in a
/// listing that goes down.
pub open spec fn is_below_listed(entries: Seq<LedgerEntry>, positions: Seq<usize>, index: int) -> bool {
    positions.len() == 0 || entry_less(entries[index], entries[positions.last() as int])
}

/// Whether a listing is a page of the entries above the bound, going down:
/// every position is that of an entry above the bound, the keys fall from
/// each position to the next, the page holds at most `page` entries, and
/// every entry above the bound has its key on the page unless the page is
/// full and the key comes after the page's last.
pub open spec fn is_page(
    entries: Seq<LedgerEntry>,
    bound: Option<(u64, String)>,
    page: int,
    positions: Seq<usize>,
) -> bool {
    &&& positions.len() <= page
    &&& forall|k: int|
        0 <= k < positions.len() ==> (#[trigger] positions[k]) < entries.len() && is_above(
            entries,
            bound,
            positions[k] as int,
        )
    &&& forall|k: int|
        0 <= k < positions.len() - 1 ==> entry_less(
            entries[positions[k + 1] as int],
            entries[(#[trigger] positions[k]) as int],
        )
    &&& forall|i: int|
        0 <= i < entries.len() && #[trigger] is_above(entries, bound, i) ==> is_listed(
            entries,
            positions,
            i,
        ) || (positions.len() == page && is_below_listed(entries, positions, i))
}

/// The order of byte strings is transitive.
pub proof fn lemma_bytes_less_transitive(a: Seq<u8>, b: Seq<u8>, c: Seq<u8>)
    requires
        bytes_less(a, b),
        bytes_less(b, c),
    ensures
        bytes_less(a, c),
    decreases a.len(),
{
    if a.len() != 0 && a[0] == b[0] && b[0] == c[0] {
        lemma_bytes_less_transitive(a.skip(1), b.skip(1), c.skip(1));
    }
}

/// Of two different byte strings one comes before the other.
pub proof fn lemma_bytes_less_total(a: Seq<u8>, b: Seq<u8>)
    ensures
        bytes_less(a, b) || bytes_less(b, a) || a == b,
    decreases a.len(),
{
    if a.len() != 0 && b.len() != 0 && a[0] == b[0] {
        lemma_bytes_less_total(a.skip(1), b.skip(1));
        if a.skip(1) == b.skip(1) {
            assert forall|i: int| 0 <= i < a.len() implies a[i] == b[i] by {
                if i > 0 {
                    assert(a[i] == a.skip(1)[i - 1]);
                    assert(b[i] == b.skip(1)[i - 1]);
                }
            }
            assert(a.len() == a.skip(1).len() + 1);
            assert(b.len() == b.skip(1).len() + 1);
            assert(a =~= b);
        }
    } else if a.len() == 0 && b.len() == 0 {
        assert(a =~= b);
    }
}

/// No byte string comes before itself.
pub proof fn lemma_bytes_less_irreflexive(a: Seq<u8>)
    ensures
        !bytes_less(a, a),
    decreases a.len(),
{
    if a.len() != 0 {
        lemma_bytes_less_irreflexive(a.skip(1));
    }
}

/// The order of keys is transitive.
pub proof fn lemma_entry_less_transitive(x: LedgerEntry, y: LedgerEntry, z: LedgerEntry)
    requires
        entry_less(x, y),
        entry_less(y, z),
    ensures
        entry_less(x, z),
{
    if x.round == y.round && y.round == z.round {
        lemma_bytes_less_transitive(address_bytes(x), address_bytes(y), address_bytes(z));
    }
}

/// Of two entries with different keys one comes before the other.
pub proof fn lemma_entry_less_total(x: LedgerEntry, y: LedgerEntry)
    ensures
        entry_less(x, y) || entry_less(y, x) || same_key(x, y),
{
    lemma_bytes_less_total(address_bytes(x), address_bytes(y));
}

/// Whether `a` comes before `b` in the order of byte strings.
pub fn bytes_before(a: &[u8], b: &[u8]) -> (less: bool)
    ensures
        less == bytes_less(a@, b@),
{
    let mut i: usize = 0;
    assert(a@.skip(0) =~= a@ && b@.skip(0) =~= b@);
    loop
        invariant
            i <= a@.len(),
            i <= b@.len(),
            bytes_less(a@, b@) == bytes_less(a@.skip(i as int), b@.skip(i as int)),
        decreases a@.len() - i,
    {
        if i == b.len() {
            return false;
        }
        if i == a.len() {
            return true;
        }
        assert(a@.skip(i as int)[0] == a@[i as int] && b@.skip(i as int)[0] == b@[i as int]);
        if a[i] != b[i] {
            return a[i] < b[i];
        }
        assert(a@.skip(i as int).skip(1) =~= a@.skip(i + 1));
        assert(b@.skip(i as int).skip(1) =~= b@.skip(i + 1));
        i = i + 1;
    }
}

/// Whether the key of `x` comes before the key of `y`.
pub fn entry_before(x: &LedgerEntry, y: &LedgerEntry) -> (less: bool)
    ensures
        less == entry_less(*x, *y),
{
    if x.round != y.round {
        x.round < y.round
    } else {
        bytes_before(x.player.as_str().as_bytes(), y.player.as_str().as_bytes())
    }
}

/// Whether the key of `entry` comes after the bound, where there is one.
pub fn entry_above(bound: &Option<(u64, String)>, entry: &LedgerEntry) -> (is_above: bool)
    ensures
        is_above == above(*bound, *entry),
{
    match bound {
        None => true,
        Some((round, address)) => {
            if *round != entry.round {
                *round < entry.round
            } else {
                bytes_before(address.as_str().as_bytes(), entry.player.as_str().as_bytes())
            }
        },
    }
}

impl BetLedger {
    /// The positions of the entries of one page: those above the bound, the
    /// highest key first, at most `page` of them.
    pub fn page_positions(&self, bound: &Option<(u64, String)>, page: usize) -> (positions: Vec<usize>)
        ensures
            is_page(self.entries@, *bound, page as int, positions@),
    {
        let ghost entries = self.entries@;
        let count: usize = self.entries.len();
        let mut positions: Vec<usize> = Vec::new();
        let mut exhausted: bool = false;
        while !exhausted && positions.len() < page
            invariant
                entries == self.entries@,
                count == entries.len(),
                positions@.len() <= page,
                forall|k: int|
                    0 <= k < positions@.len() ==> (#[trigger] positions@[k]) < entries.len()
                        && is_above(entries, *bound, positions@[k] as int),
                forall|k: int|
                    0 <= k < positions@.len() - 1 ==> entry_less(
                        entries[positions@[k + 1] as int],
                        entries[(#[trigger] positions@[k]) as int],
                    ),
                forall|i: int|
                    0 <= i < entries.len() && #[trigger] is_above(entries, *bound, i) ==> is_listed(
                        entries,
                        positions@,
                        i,
                    ) || (!exhausted && is_below_listed(entries, positions@, i)),
            decreases (if exhausted { 0int } else { 1int }), page - positions@.len(),
        {
            let ghost listed = positions@;
            let mut best: Option<usize> = None;
            let mut i: usize = 0;
            while i < count
                invariant
                    i <= count,
                    entries == self.entries@,
                    count == entries.len(),
                    listed == positions@,
                    forall|k: int| 0 <= k < listed.len() ==> (#[trigger] listed[k]) < entries.len(),
                    match best {
                        None => forall|j: int|
                            0 <= j < i ==> !(#[trigger] is_above(entries, *bound, j)
                                && is_below_listed(entries, listed, j)),
                        Some(b) => {
                            &&& b < i
                            &&& is_above(entries, *bound, b as int)
                            &&& is_below_listed(entries, listed, b as int)
                            &&& forall|j: int|
                                0 <= j < i && #[trigger] is_above(entries, *bound, j)
                                    && is_below_listed(entries, listed, j) ==> !entry_less(
                                    entries[b as int],
                                    entries[j],
                                )
                        },
                    },
                decreases count - i,
            {
                let below: bool = if positions.len() == 0 {
                    true
                } else {
                    entry_before(&self.entries[i], &self.entries[positions[positions.len() - 1]])
                };
                let over: bool = entry_above(bound, &self.entries[i]);
                assert(below == is_below_listed(entries, listed, i as int));
                assert(over == is_above(entries, *bound, i as int));
                if below && over {
                    match best {
                        None => {
                            proof {
                                lemma_bytes_less_irreflexive(address_bytes(entries[i as int]));
                            }
                            best = Some(i);
                        },
                        Some(b) => {
                            if entry_before(&self.entries[b], &self.entries[i]) {
                                proof {
                                    assert forall|j: int|
                                        0 <= j < i + 1 && #[trigger] is_above(entries, *bound, j)
                                            && is_below_listed(
                                            entries,
                                            listed,
                                            j,
                                        ) implies !entry_less(entries[i as int], entries[j]) by {
                                        lemma_bytes_less_irreflexive(
                                            address_bytes(entries[i as int]),
                                        );
                                        if j < i && entry_less(entries[i as int], entries[j]) {
                                            lemma_entry_less_transitive(
                                                entries[b as int],
                                                entries[i as int],
                                                entries[j],
                                            );
                                        }
                                    }
                                }
                                best = Some(i);
                            }
                        },
                    }
                }
                i = i + 1;
            }
            match best {
                None => {
                    exhausted = true;
                },
                Some(b) => {
                    positions.push(b);
                    proof {
                        let after = positions@;
                        assert(after.last() == b);
                        assert forall|k: int| 0 <= k < after.len() - 1 implies entry_less(
                            entries[after[k + 1] as int],
                            entries[(#[trigger] after[k]) as int],
                        ) by {
                            if k < listed.len() - 1 {
                                assert(after[k] == listed[k] && after[k + 1] == listed[k + 1]);
                            } else {
                                assert(after[k] == listed.last());
                            }
                        }
                        assert forall|i: int|
                            0 <= i < entries.len() && #[trigger] is_above(
                                entries,
                                *bound,
                                i,
                            ) implies is_listed(entries, after, i) || is_below_listed(
                            entries,
                            after,
                            i,
                        ) by {
                            if is_listed(entries, listed, i) {
                                let k = choose|k: int|
                                    0 <= k < listed.len() && same_key(
                                        entries[(#[trigger] listed[k]) as int],
                                        entries[i],
                                    );
                                assert(after[k] == listed[k]);
                            } else {
                                lemma_entry_less_total(entries[i], entries[b as int]);
                                if same_key(entries[i], entries[b as int]) {
                                    assert(same_key(
                                        entries[after[after.len() - 1] as int],
                                        entries[i],
                                    ));
                                }
                            }
                        }
                    }
                },
            }
        }
        positions
    }
}

} // verus!
