use vstd::prelude::*;

verus! {

/// A span of time: whole seconds and the nanoseconds beyond them.
#[derive(Clone, Copy, Debug, PartialEq, Eq, Structural)]
pub struct Age {
    pub secs: u64,
    pub nanos: u32,
}

pub const NANOS_PER_SEC: u64 = 1_000_000_000;

pub const NANOS_PER_MILLI: u64 = 1_000_000;

impl Age {
    /// The span in nanoseconds.
    pub open spec fn total_nanos(&self) -> nat {
        (self.secs * NANOS_PER_SEC + self.nanos) as nat
    }

    /// Whether this span is strictly longer than `other`.
    pub open spec fn spec_exceeds(&self, other: Age) -> bool {
        self.total_nanos() > other.total_nanos()
    }

    pub fn new(secs: u64, nanos: u32) -> (r: Age)
        ensures
            r.secs == secs,
            r.nanos == nanos,
    {
        Age { secs, nanos }
    }

    pub fn from_millis(millis: u64) -> (r: Age)
        ensures
            r.nanos < NANOS_PER_SEC,
            r.total_nanos() == millis * NANOS_PER_MILLI,
    {
        let secs: u64 = millis / 1000;
        let rest: u64 = millis % 1000;
        assert(millis == secs * 1000 + rest) by (nonlinear_arith)
            requires
                secs == millis / 1000,
                rest == millis % 1000,
        ;
        assert(rest * NANOS_PER_MILLI < NANOS_PER_SEC) by (nonlinear_arith)
            requires
                rest < 1000,
        ;
        let nanos: u32 = (rest * NANOS_PER_MILLI) as u32;
        assert(secs * NANOS_PER_SEC + nanos == millis * NANOS_PER_MILLI) by (nonlinear_arith)
            requires
                millis == secs * 1000 + rest,
                nanos == rest * NANOS_PER_MILLI,
        ;
        Age { secs, nanos }
    }

    /// The span in nanoseconds.
    pub fn as_nanos(&self) -> (r: u128)
        ensures
            r == self.total_nanos(),
    {
        assert(self.secs * NANOS_PER_SEC + self.nanos < 0x1_0000_0000_0000_0000_0000_0000_0000_0000)
            by (nonlinear_arith);
        (self.secs as u128) * (NANOS_PER_SEC as u128) + (self.nanos as u128)
    }

    /// Whether this span is strictly longer than `other`.
    pub fn exceeds(&self, other: &Age) -> (r: bool)
        ensures
            r == self.spec_exceeds(*other),
    {
        self.as_nanos() > other.as_nanos()
    }
}

} // verus!
