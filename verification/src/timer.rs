//! The round timer: when a round is live, when it waits for randomness, and
//! when it is ready to be settled.

use vstd::prelude::*;

verus! {

/// Seconds between two publications of the randomness beacon. A round stays
/// live for this long after its duration has elapsed.
pub const DRAND_PERIOD_SECONDS: u64 = 30;

/// What a round allows at a given moment.
#[derive(Clone, Copy, Debug, PartialEq, Eq, Structural)]
pub enum RoundStatus {
    /// Bets are accepted.
    Live,
    /// The window has elapsed, no new randomness has been published.
    WaitingOnRandomness,
    /// The window has elapsed and the round can be settled.
    Ready,
    /// An administrator has stopped the game.
    Stopped,
}

/// Round boundaries and the randomness round bound to the last settlement.
#[derive(Clone, Copy, Debug, PartialEq, Eq, Structural)]
pub struct RoundTimer {
    pub round_duration: u64,
    pub current_round_start_time: u64,
    pub current_round: u64,
    pub stopped: bool,
    pub drand_round: u64,
}

impl RoundTimer {
    /// The status of a timer at time `now`, given whether randomness newer
    /// than the last one consumed exists.
    pub open spec fn status_at(self, now: u64, exist_new_randomness: bool) -> RoundStatus {
        if self.stopped {
            RoundStatus::Stopped
        } else if now >= self.current_round_start_time + self.round_duration
            + DRAND_PERIOD_SECONDS {
            if exist_new_randomness {
                RoundStatus::Ready
            } else {
                RoundStatus::WaitingOnRandomness
            }
        } else {
            RoundStatus::Live
        }
    }

    /// A timer for round 0, which starts at `now`.
    pub fn new(round_duration: u64, now: u64) -> (timer: RoundTimer)
        ensures
            timer == (RoundTimer {
                round_duration,
                current_round_start_time: now,
                current_round: 0,
                stopped: false,
                drand_round: 0,
            }),
    {
        RoundTimer {
            round_duration,
            current_round_start_time: now,
            current_round: 0,
            stopped: false,
            drand_round: 0,
        }
    }

    /// Sets the duration of this and all later rounds.
    pub fn update_duration(&mut self, duration: u64)
        ensures
            *final(self) == (RoundTimer { round_duration: duration, ..*old(self) }),
    {
        self.round_duration = duration;
    }

    /// Records the randomness round that the last settlement consumed.
    pub fn update_drand(&mut self, drand_round: u64)
        ensures
            *final(self) == (RoundTimer { drand_round, ..*old(self) }),
    {
        self.drand_round = drand_round;
    }

    /// Stops the game. Nothing starts it again.
    pub fn stop(&mut self)
        ensures
            *final(self) == (RoundTimer { stopped: true, ..*old(self) }),
    {
        self.stopped = true;
    }

    /// The status at time `now`. The sum of start, duration and grace period
    /// is taken without wrapping.
    pub fn round_status(&self, now: u64, exist_new_randomness: bool) -> (status: RoundStatus)
        ensures
            status == self.status_at(now, exist_new_randomness),
    {
        if self.stopped {
            RoundStatus::Stopped
        } else {
            let end: u128 = self.current_round_start_time as u128 + self.round_duration as u128
                + DRAND_PERIOD_SECONDS as u128;
            if now as u128 >= end {
                if exist_new_randomness {
                    RoundStatus::Ready
                } else {
                    RoundStatus::WaitingOnRandomness
                }
            } else {
                RoundStatus::Live
            }
        }
    }

    pub fn current_round(&self) -> (round: u64)
        ensures
            round == self.current_round,
    {
        self.current_round
    }

    pub fn drand_round(&self) -> (round: u64)
        ensures
            round == self.drand_round,
    {
        self.drand_round
    }

    /// Starts the next round at time `now`.
    pub fn next_round(&mut self, now: u64)
        requires
            old(self).current_round < u64::MAX,
        ensures
            *final(self) == (RoundTimer {
                current_round_start_time: now,
                current_round: (old(self).current_round + 1) as u64,
                ..*old(self)
            }),
    {
        self.current_round_start_time = now;
        self.current_round = self.current_round + 1;
    }
}

} // verus!
