use vstd::prelude::*;

verus! {

/// Nanoseconds in one second.
pub const NANOS_PER_SEC: u32 = 1_000_000_000;

/// The period of the countdown clock, in milliseconds.
pub const TICK_PERIOD_MS: u64 = 1000;

/// The time left on the countdown: whole seconds and the nanoseconds beyond them.
#[derive(Clone, Copy, Debug, PartialEq, Eq, Structural)]
pub struct TimeLeft {
    pub secs: u64,
    pub nanos: u32,
}

impl TimeLeft {
    /// The nanosecond part is below one second.
    pub open spec fn wf(&self) -> bool {
        self.nanos < NANOS_PER_SEC
    }

    /// The time left, in nanoseconds.
    pub open spec fn total_nanos(&self) -> nat {
        self.secs as nat * NANOS_PER_SEC as nat + self.nanos as nat
    }

    /// The time left after one tick: one second less, or nothing where less than a
    /// second was left.
    pub open spec fn spec_ticked(&self) -> nat {
        if self.total_nanos() >= NANOS_PER_SEC as nat {
            (self.total_nanos() - NANOS_PER_SEC as nat) as nat
        } else {
            0
        }
    }

    /// The value after one tick.
    pub open spec fn spec_ticked_value(&self) -> TimeLeft {
        if self.secs >= 1 {
            TimeLeft { secs: (self.secs - 1) as u64, nanos: self.nanos }
        } else {
            TimeLeft { secs: 0, nanos: 0 }
        }
    }

    pub fn from_secs(secs: u64) -> (r: Self)
        ensures
            r.wf(),
            r.total_nanos() == secs as nat * NANOS_PER_SEC as nat,
            r.secs == secs,
    {
        TimeLeft { secs, nanos: 0 }
    }

    pub fn from_parts(secs: u64, nanos: u32) -> (r: Self)
        requires
            nanos < NANOS_PER_SEC,
        ensures
            r.wf(),
            r.secs == secs,
            r.nanos == nanos,
    {
        TimeLeft { secs, nanos }
    }

    pub fn is_zero(&self) -> (r: bool)
        ensures
            r == (self.total_nanos() == 0),
    {
        self.secs == 0 && self.nanos == 0
    }

    /// One second less, clamped at zero.
    pub fn ticked(&self) -> (r: Self)
        requires
            self.wf(),
        ensures
            r.wf(),
            r.total_nanos() == self.spec_ticked(),
            r == self.spec_ticked_value(),
    {
        if self.secs >= 1 {
            TimeLeft { secs: self.secs - 1, nanos: self.nanos }
        } else {
            TimeLeft { secs: 0, nanos: 0 }
        }
    }
}

} // verus!
