//! Points in time and spans of time on the interface's monotonic clock,
//! both counted in whole microseconds.

use vstd::prelude::*;

verus! {

/// A point in time on the monotonic clock, in microseconds since its start.
#[derive(Clone, Copy, Debug, PartialEq, Eq, Structural)]
pub struct Instant {
    pub micros: u64,
}

/// A span of time in microseconds.
#[derive(Clone, Copy, Debug, PartialEq, Eq, Structural)]
pub struct Duration {
    pub micros: u64,
}

impl View for Instant {
    type V = int;

    /// The instant as a mathematical integer of microseconds.
    open spec fn view(&self) -> int {
        self.micros as int
    }
}

impl View for Duration {
    type V = int;

    /// The span as a mathematical integer of microseconds.
    open spec fn view(&self) -> int {
        self.micros as int
    }
}

impl Instant {
    /// The instant `micros` microseconds after the clock's start.
    pub fn from_micros(micros: u64) -> (t: Instant)
        ensures
            t@ == micros,
    {
        Instant { micros }
    }

    /// The instant `millis` milliseconds after the clock's start.
    pub fn from_millis(millis: u64) -> (t: Instant)
        requires
            millis * 1000 <= u64::MAX,
        ensures
            t@ == millis * 1000,
    {
        Instant { micros: millis * 1000 }
    }

    /// Whether this instant is at or after `deadline`.
    pub fn has_reached(self, deadline: Instant) -> (reached: bool)
        ensures
            reached == (self@ >= deadline@),
    {
        self.micros >= deadline.micros
    }

    /// The instant `span` after this one.
    pub fn plus(self, span: Duration) -> (t: Instant)
        requires
            self@ + span@ <= u64::MAX,
        ensures
            t@ == self@ + span@,
    {
        Instant { micros: self.micros + span.micros }
    }

    /// The later of this instant and `other`.
    pub fn later_of(self, other: Instant) -> (t: Instant)
        ensures
            t@ == later(self@, other@),
    {
        if self.micros >= other.micros {
            self
        } else {
            other
        }
    }
}

impl Duration {
    /// A span of `micros` microseconds.
    pub fn from_micros(micros: u64) -> (d: Duration)
        ensures
            d@ == micros,
    {
        Duration { micros }
    }

    /// A span of `millis` milliseconds.
    pub fn from_millis(millis: u64) -> (d: Duration)
        requires
            millis * 1000 <= u64::MAX,
        ensures
            d@ == millis * 1000,
    {
        Duration { micros: millis * 1000 }
    }

    /// This span cut into `parts` equal shares, rounded down to a whole
    /// microsecond.
    pub fn divided_by(self, parts: u64) -> (d: Duration)
        requires
            parts > 0,
        ensures
            d@ == self@ / (parts as int),
    {
        Duration { micros: self.micros / parts }
    }
}

/// The later of two points in time.
pub open spec fn later(a: int, b: int) -> int {
    if a >= b {
        a
    } else {
        b
    }
}

} // verus!
