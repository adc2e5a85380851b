//! The two games that share the round and settlement logic, and how a
//! round's outcome is derived from a random value.

use vstd::prelude::*;
use crate::error::StdError;

verus! {

/// The number of random bytes a settlement consumes.
pub const RANDOMNESS_LENGTH: usize = 32;

/// Which game a state belongs to.
#[derive(Clone, Copy, Debug, PartialEq, Eq, Structural)]
pub enum GameKind {
    /// Outcome 0 (head) or 1 (tail); a bet wins on the outcome it names.
    Coinflip,
    /// Outcomes 3 to 12; a bet wins when the rolled total reaches at least
    /// the outcome it names.
    DoubleDice,
}

/// The number that a byte string stands for, most significant byte first.
pub open spec fn be_value(bytes: Seq<u8>) -> nat
    decreases bytes.len(),
{
    if bytes.len() == 0 {
        0
    } else {
        be_value(bytes.drop_last()) * 256 + bytes.last() as nat
    }
}

/// The face of a die, 1 to 6, that 16 random bytes give.
pub open spec fn die_face(bytes: Seq<u8>) -> nat {
    be_value(bytes) % 6 + 1
}

impl GameKind {
    /// The smallest outcome a bet may name.
    pub open spec fn spec_min_outcome(self) -> u8 {
        match self {
            GameKind::Coinflip => 0,
            GameKind::DoubleDice => 3,
        }
    }

    /// The largest outcome a bet may name.
    pub open spec fn spec_max_outcome(self) -> u8 {
        match self {
            GameKind::Coinflip => 1,
            GameKind::DoubleDice => 12,
        }
    }

    /// Whether a bet may name `outcome`.
    pub open spec fn valid_outcome(self, outcome: u8) -> bool {
        self.spec_min_outcome() <= outcome <= self.spec_max_outcome()
    }

    /// The number of win coefficients the game's configuration holds.
    pub open spec fn spec_coefficient_count(self) -> nat {
        match self {
            GameKind::Coinflip => 1,
            GameKind::DoubleDice => 10,
        }
    }

    /// The position in the coefficient table of the coefficient that pays a
    /// winning bet on `outcome`.
    pub open spec fn spec_coefficient_index(self, outcome: u8) -> int {
        match self {
            GameKind::Coinflip => 0,
            GameKind::DoubleDice => outcome - 3,
        }
    }

    /// The outcome of a round in which the two dice show `first` and `second`.
    /// In the coin flip the tail wins only where the first die is strictly
    /// lower; a tie goes to the head.
    pub open spec fn spec_outcome_of(self, first: nat, second: nat) -> nat {
        match self {
            GameKind::Coinflip => if first < second { 1 } else { 0 },
            GameKind::DoubleDice => first + second,
        }
    }

    /// Whether a bet on `outcome` wins a round whose outcome is `rolled`.
    pub open spec fn spec_wins(self, outcome: u8, rolled: u8) -> bool {
        match self {
            GameKind::Coinflip => outcome == rolled,
            GameKind::DoubleDice => outcome <= rolled,
        }
    }

    /// The outcome that a random value gives, where it has 32 bytes.
    pub open spec fn spec_rolled_outcome(self, randomness: Seq<u8>) -> nat {
        self.spec_outcome_of(
            die_face(randomness.subrange(0, 16)),
            die_face(randomness.subrange(16, 32)),
        )
    }

    pub fn min_outcome(self) -> (outcome: u8)
        ensures
            outcome == self.spec_min_outcome(),
    {
        match self {
            GameKind::Coinflip => 0,
            GameKind::DoubleDice => 3,
        }
    }

    pub fn max_outcome(self) -> (outcome: u8)
        ensures
            outcome == self.spec_max_outcome(),
    {
        match self {
            GameKind::Coinflip => 1,
            GameKind::DoubleDice => 12,
        }
    }

    pub fn coefficient_count(self) -> (count: usize)
        ensures
            count == self.spec_coefficient_count(),
    {
        match self {
            GameKind::Coinflip => 1,
            GameKind::DoubleDice => 10,
        }
    }

    pub fn coefficient_index(self, outcome: u8) -> (index: usize)
        requires
            self.valid_outcome(outcome),
        ensures
            index == self.spec_coefficient_index(outcome),
            index < self.spec_coefficient_count(),
    {
        match self {
            GameKind::Coinflip => 0,
            GameKind::DoubleDice => (outcome - 3) as usize,
        }
    }

    pub fn wins(self, outcome: u8, rolled: u8) -> (won: bool)
        ensures
            won == self.spec_wins(outcome, rolled),
    {
        match self {
            GameKind::Coinflip => outcome == rolled,
            GameKind::DoubleDice => outcome <= rolled,
        }
    }

    /// Derives the round's outcome from a random value: each half of the 32
    /// bytes, read as a big-endian number and reduced modulo 6, is a die.
    pub fn rolled_outcome(self, randomness: &Vec<u8>) -> (rolled: Result<u8, StdError>)
        ensures
            randomness@.len() == 32 ==> rolled == Ok::<u8, StdError>(
                self.spec_rolled_outcome(randomness@) as u8,
            ) && self.spec_rolled_outcome(randomness@) <= 12,
            randomness@.len() != 32 ==> rolled == Err::<u8, StdError>(
                StdError::InvalidDataSize { expected: 32, actual: randomness@.len() as u64 },
            ),
    {
        if randomness.len() != RANDOMNESS_LENGTH {
            return Err(StdError::InvalidDataSize { expected: 32, actual: randomness.len() as u64 });
        }
        let first = roll_die(randomness, 0);
        let second = roll_die(randomness, 16);
        match self {
            GameKind::Coinflip => if first < second { Ok(1) } else { Ok(0) },
            GameKind::DoubleDice => Ok(first + second),
        }
    }
}

/// Appending a byte to a number multiplies it by 256 and adds the byte; the
/// remainder modulo 6 follows from the remainder before.
proof fn lemma_be_value_step(bytes: Seq<u8>, start: int, count: int)
    requires
        0 <= start,
        0 <= count,
        start + count < bytes.len(),
    ensures
        be_value(bytes.subrange(start, start + count + 1)) == be_value(
            bytes.subrange(start, start + count),
        ) * 256 + bytes[start + count] as nat,
{
    let longer = bytes.subrange(start, start + count + 1);
    assert(longer.drop_last() == bytes.subrange(start, start + count));
    assert(longer.last() == bytes[start + count]);
}

/// The face, 1 to 6, of the die that the 16 bytes from `start` give.
fn roll_die(randomness: &Vec<u8>, start: usize) -> (face: u8)
    requires
        start + 16 <= randomness@.len(),
    ensures
        face == die_face(randomness@.subrange(start as int, start + 16)),
        1 <= face <= 6,
{
    let length: usize = randomness.len();
    let mut rest: u64 = 0;
    let mut count: usize = 0;
    assert(be_value(randomness@.subrange(start as int, start as int)) == 0);
    while count < 16
        invariant
            count <= 16,
            start + 16 <= randomness@.len(),
            randomness@.len() == length,
            rest < 6,
            rest == be_value(randomness@.subrange(start as int, start + count)) % 6,
        decreases 16 - count,
    {
        let byte: u8 = randomness[start + count];
        proof {
            lemma_be_value_step(randomness@, start as int, count as int);
            let before = be_value(randomness@.subrange(start as int, start + count));
            assert((before * 256 + byte as nat) % 6 == ((before % 6) * 256 + byte as nat) % 6)
                by (nonlinear_arith);
        }
        rest = (rest * 256 + byte as u64) % 6;
        count = count + 1;
    }
    (rest + 1) as u8
}

} // verus!
