//! How long a span has been busy and how long idle.

use vstd::prelude::*;

verus! {

/// A duration as a 64-bit counter of nanoseconds holds it: counting starts
/// again at zero past the largest value.
pub open spec fn clocked(nanos: int) -> u64 {
    (nanos % 0x1_0000_0000_0000_0000) as u64
}

/// The time a span has spent entered (busy) and not entered (idle), in
/// nanoseconds.
#[derive(Debug, Clone, Copy, PartialEq, Eq, Structural)]
pub struct Timings {
    /// Nanoseconds spent outside the span since it was made.
    pub idle: u64,
    /// Nanoseconds spent inside the span.
    pub busy: u64,
}

impl Timings {
    /// The timings of a span that has just been made.
    pub fn new() -> (timings: Self)
        ensures
            timings == (Timings { idle: 0, busy: 0 }),
    {
        Timings { idle: 0, busy: 0 }
    }

    /// Counts the `elapsed_nanos` before an entry as idle time.
    pub fn entered(&mut self, elapsed_nanos: u64)
        ensures
            *final(self) == (Timings {
                idle: clocked(old(self).idle + elapsed_nanos),
                busy: old(self).busy,
            }),
    {
        self.idle = self.idle.wrapping_add(elapsed_nanos);
    }

    /// Counts the `elapsed_nanos` before an exit as busy time.
    pub fn exited(&mut self, elapsed_nanos: u64)
        ensures
            *final(self) == (Timings {
                idle: old(self).idle,
                busy: clocked(old(self).busy + elapsed_nanos),
            }),
    {
        self.busy = self.busy.wrapping_add(elapsed_nanos);
    }

    /// The timings to report when the span closes `elapsed_nanos` after it
    /// was last left: that time counts as idle.
    pub fn closed(&self, elapsed_nanos: u64) -> (last: Self)
        ensures
            last == (Timings { idle: clocked(self.idle + elapsed_nanos), busy: self.busy }),
    {
        Timings { idle: self.idle.wrapping_add(elapsed_nanos), busy: self.busy }
    }
}

} // verus!
