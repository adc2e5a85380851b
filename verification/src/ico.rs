//! The stages of a token sale and the timer that moves through them.

use vstd::prelude::*;

verus! {

/// The stage of a token sale.
#[derive(Clone, Copy, Debug, PartialEq, Eq, Structural)]
pub enum IcoStage {
    NotStarted,
    PrivateSale,
    PublicSale,
    Ended,
}

/// The times of a sale as a query reports them.
#[derive(Clone, Copy, Debug, PartialEq, Eq, Structural)]
pub struct IcoTimes {
    pub start_time: Option<u64>,
    pub private_end: u64,
    pub public_end: u64,
}

/// A receiver of revenue and its share, a decimal string between 0 and 1.
#[derive(Clone, Debug, PartialEq, Eq)]
pub struct RevenuePercentage {
    pub addr: String,
    pub percentage: String,
}

/// A receiver of revenue and its share, a decimal string between 0 and 1.
#[derive(Clone, Debug, PartialEq, Eq)]
pub struct ReceiversePercentage {
    pub addr: String,
    pub percentage: String,
}

/// The addresses admitted to the private sale, and the receivers of revenue.
#[derive(Clone, Debug, PartialEq, Eq)]
pub struct Whitelist {
    pub whitelist: Vec<String>,
    pub receivers: Vec<ReceiversePercentage>,
}

/// The timer of a sale. Before the start it holds the two durations; from
/// the start on, the times at which the private and the public sale end.
#[derive(Clone, Copy, Debug, PartialEq, Eq, Structural)]
pub struct IcoTimer {
    start_time: Option<u64>,
    private_end: u64,
    public_end: u64,
}

impl IcoTimer {
    pub closed spec fn spec_start_time(&self) -> Option<u64> {
        self.start_time
    }

    pub closed spec fn spec_private_end(&self) -> u64 {
        self.private_end
    }

    pub closed spec fn spec_public_end(&self) -> u64 {
        self.public_end
    }

    /// The stage at time `now`.
    pub open spec fn stage_at(&self, now: u64) -> IcoStage {
        match self.spec_start_time() {
            None => IcoStage::NotStarted,
            Some(start) => if now < start {
                IcoStage::NotStarted
            } else if now < self.spec_private_end() {
                IcoStage::PrivateSale
            } else if now < self.spec_public_end() {
                IcoStage::PublicSale
            } else {
                IcoStage::Ended
            },
        }
    }

    /// A timer that has not started, for the two durations.
    pub fn new(private_duration: u64, public_duration: u64) -> (timer: Self)
        ensures
            timer.spec_start_time().is_none(),
            timer.spec_private_end() == private_duration,
            timer.spec_public_end() == public_duration,
    {
        Self { start_time: None, private_end: private_duration, public_end: public_duration }
    }

    pub fn get_start_ime(&self) -> (start: Option<u64>)
        ensures
            start == self.spec_start_time(),
    {
        self.start_time
    }

    pub fn get_private_end(&self) -> (end: u64)
        ensures
            end == self.spec_private_end(),
    {
        self.private_end
    }

    pub fn get_public_end(&self) -> (end: u64)
        ensures
            end == self.spec_public_end(),
    {
        self.public_end
    }

    /// The times of the sale.
    pub fn query_ico_times(&self) -> (times: IcoTimes)
        ensures
            times == (IcoTimes {
                start_time: self.spec_start_time(),
                private_end: self.spec_private_end(),
                public_end: self.spec_public_end(),
            }),
    {
        IcoTimes {
            start_time: self.start_time,
            private_end: self.private_end,
            public_end: self.public_end,
        }
    }

    /// Starts the sale at time `now`: the private sale ends after its
    /// duration, the public sale after its own duration more.
    pub fn start(&mut self, now: u64)
        requires
            old(self).spec_private_end() + now + old(self).spec_public_end() <= u64::MAX,
        ensures
            final(self).spec_start_time() == Some(now),
            final(self).spec_private_end() == old(self).spec_private_end() + now,
            final(self).spec_public_end() == old(self).spec_public_end() + old(
                self,
            ).spec_private_end() + now,
    {
        self.start_time = Some(now);
        self.private_end = self.private_end + now;
        self.public_end = self.public_end + self.private_end;
    }

    /// Ends the sale: at any time from the start on the stage is `Ended`.
    pub fn end(&mut self)
        ensures
            final(self).spec_start_time() == old(self).spec_start_time(),
            final(self).spec_private_end() == 0,
            final(self).spec_public_end() == 0,
    {
        self.private_end = 0;
        self.public_end = 0;
    }

    /// The stage at time `now`.
    pub fn current_stage(&self, now: u64) -> (stage: IcoStage)
        ensures
            stage == self.stage_at(now),
    {
        let start_time = match self.start_time {
            Some(t) => t,
            None => { return IcoStage::NotStarted; },
        };
        if now < start_time {
            IcoStage::NotStarted
        } else if now < self.private_end {
            IcoStage::PrivateSale
        } else if now < self.public_end {
            IcoStage::PublicSale
        } else {
            IcoStage::Ended
        }
    }

    /// Ends the stage of time `now` early. A private sale ends now and the
    /// public sale keeps its length; a public sale ends the sale; before the
    /// start and after the end nothing changes.
    pub fn move_to_next_stage(&mut self, now: u64)
        requires
            old(self).spec_private_end() <= old(self).spec_public_end(),
        ensures
            final(self).spec_start_time() == old(self).spec_start_time(),
            old(self).stage_at(now) == IcoStage::PrivateSale ==> final(self).spec_private_end()
                == now && final(self).spec_public_end() == old(self).spec_public_end() - (old(
                self,
            ).spec_private_end() - now),
            old(self).stage_at(now) == IcoStage::PublicSale ==> final(self).spec_private_end() == 0
                && final(self).spec_public_end() == 0,
            old(self).stage_at(now) == IcoStage::NotStarted || old(self).stage_at(now)
                == IcoStage::Ended ==> *final(self) == *old(self),
    {
        match self.current_stage(now) {
            IcoStage::NotStarted | IcoStage::Ended => {},
            IcoStage::PrivateSale => {
                let delta: u64 = self.private_end - now;
                let new_public_end: u64 = self.public_end - delta;
                self.private_end = now;
                self.public_end = new_public_end;
            },
            IcoStage::PublicSale => {
                self.end();
            },
        }
    }
}

} // verus!
