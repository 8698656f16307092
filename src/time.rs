//! The architectural timer: resolution, uptime, and the decision of how to
//! spin for a duration. Reading the counter registers and waiting on the
//! timer's status stay with the caller.
use vstd::prelude::*;

verus! {

/// Nanoseconds per second.
pub const NS_PER_S: u64 = 1_000_000_000;

/// What a spin for a duration comes to.
#[derive(Clone, Copy, PartialEq, Eq, Structural, Debug)]
pub enum SpinDecision {
    /// The duration is zero: nothing to do.
    Done,
    /// Frequency times duration does not fit in 64 bits: skipped.
    TooLong,
    /// The duration is below one timer tick: skipped.
    Smaller,
    /// The duration needs more ticks than the 32-bit timer value holds:
    /// skipped.
    Bigger,
    /// Program the timer value with this many ticks, enable the timer with
    /// its interrupt masked, wait for its status, and disable it.
    Wait(u64),
}

/// The decision for spinning `nanos` nanoseconds on a timer of `frq` Hz.
pub open spec fn spin_decision(frq: u64, nanos: u128) -> SpinDecision {
    if nanos == 0 {
        SpinDecision::Done
    } else if nanos > u64::MAX || frq * nanos > u64::MAX {
        SpinDecision::TooLong
    } else if (frq * nanos) / (NS_PER_S as int) == 0 {
        SpinDecision::Smaller
    } else if (frq * nanos) / (NS_PER_S as int) > u32::MAX {
        SpinDecision::Bigger
    } else {
        SpinDecision::Wait(((frq * nanos) / (NS_PER_S as int)) as u64)
    }
}

/// The generic timer, as seen through its frequency and counter registers.
pub struct GenericTimer {
    cntfrq: u64,
    cntpct: u64,
}

impl GenericTimer {
    pub closed spec fn frequency(&self) -> u64 {
        self.cntfrq
    }

    pub closed spec fn count(&self) -> u64 {
        self.cntpct
    }

    /// The timer whose frequency register reads `cntfrq` and whose counter
    /// reads `cntpct`.
    pub fn new(cntfrq: u64, cntpct: u64) -> (r: Self)
        ensures
            r.frequency() == cntfrq,
            r.count() == cntpct,
    {
        GenericTimer { cntfrq, cntpct }
    }

    /// Takes the counter register's current value.
    pub fn read_cntpct(&mut self, cntpct: u64)
        ensures
            final(self).count() == cntpct,
            final(self).frequency() == old(self).frequency(),
    {
        self.cntpct = cntpct;
    }

    /// The length of one tick, in nanoseconds, rounded down.
    pub fn resolution(&self) -> (r: u64)
        requires
            self.frequency() > 0,
        ensures
            r == NS_PER_S / self.frequency(),
    {
        NS_PER_S / self.cntfrq
    }

    /// The time since the counter started, in nanoseconds, rounded down.
    pub fn uptime(&self) -> (r: u128)
        requires
            self.frequency() > 0,
        ensures
            r == (self.count() * NS_PER_S) / (self.frequency() as int),
    {
        assert(self.cntpct * NS_PER_S <= u64::MAX * NS_PER_S) by (nonlinear_arith)
            requires self.cntpct <= u64::MAX;
        let current = (self.cntpct as u128) * (NS_PER_S as u128);
        current / (self.cntfrq as u128)
    }

    /// What spinning for `nanos` nanoseconds comes to.
    pub fn spin_for(&self, nanos: u128) -> (r: SpinDecision)
        ensures
            r == spin_decision(self.frequency(), nanos),
    {
        if nanos == 0 {
            return SpinDecision::Done;
        }
        if nanos > u64::MAX as u128 {
            return SpinDecision::TooLong;
        }
        let x = match self.cntfrq.checked_mul(nanos as u64) {
            None => {
                return SpinDecision::TooLong;
            },
            Some(val) => val,
        };
        let tval = x / NS_PER_S;
        if tval == 0 {
            SpinDecision::Smaller
        } else if tval > u32::MAX as u64 {
            SpinDecision::Bigger
        } else {
            SpinDecision::Wait(tval)
        }
    }
}

} // verus!
