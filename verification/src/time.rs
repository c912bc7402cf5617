//! Time, as the machine reads it.
//!
//! The machine never reads a clock: every call that depends on time is handed
//! `now`. An `Instant` here is a count of milliseconds since whatever epoch the
//! caller picked (the shell uses its own start-up), and a `Duration` is a
//! count of milliseconds. Both are plain integers, so the timers can be
//! driven, and proved, by arithmetic.

use vstd::prelude::*;

verus! {

/// A span of time, in whole milliseconds.
#[derive(Debug, Clone, Copy, PartialEq, Eq, PartialOrd, Ord, Hash, Structural)]
pub struct Duration {
    pub millis: u64,
}

/// A point in time: milliseconds since the caller's epoch.
#[derive(Debug, Clone, Copy, PartialEq, Eq, PartialOrd, Ord, Hash, Structural)]
pub struct Instant {
    pub millis: u64,
}

impl View for Duration {
    type V = nat;

    open spec fn view(&self) -> nat {
        self.millis as nat
    }
}

impl View for Instant {
    type V = nat;

    open spec fn view(&self) -> nat {
        self.millis as nat
    }
}

/// `a - b`, or zero when `b` is later, which is what `duration_since` gives.
pub open spec fn saturating_diff(a: nat, b: nat) -> nat {
    if a >= b { (a - b) as nat } else { 0 }
}

impl Duration {
    /// The empty span.
    pub fn zero() -> (r: Duration)
        ensures
            r@ == 0,
    {
        Duration { millis: 0 }
    }

    pub fn from_millis(millis: u64) -> (r: Duration)
        ensures
            r@ == millis,
    {
        Duration { millis }
    }

    pub fn from_secs(secs: u64) -> (r: Duration)
        requires
            secs * 1000 <= u64::MAX,
        ensures
            r@ == secs * 1000,
    {
        Duration { millis: secs * 1000 }
    }

    /// Whole seconds, rounding down.
    pub fn as_secs(self) -> (r: u64)
        ensures
            r == self@ / 1000,
    {
        self.millis / 1000
    }

    pub fn as_millis(self) -> (r: u64)
        ensures
            r == self@,
    {
        self.millis
    }
}

impl Instant {
    pub fn from_millis(millis: u64) -> (r: Instant)
        ensures
            r@ == millis,
    {
        Instant { millis }
    }

    /// The instant `d` after this one.
    pub fn plus(self, d: Duration) -> (r: Instant)
        requires
            self@ + d@ <= u64::MAX,
        ensures
            r@ == self@ + d@,
    {
        Instant { millis: self.millis + d.millis }
    }

    /// The instant `d` after this one, or `None` when that is past the end of
    /// the representable range.
    pub fn checked_add(self, d: Duration) -> (r: Option<Instant>)
        ensures
            r is Some <==> self@ + d@ <= u64::MAX,
            r matches Some(t) ==> t@ == self@ + d@,
    {
        match self.millis.checked_add(d.millis) {
            Some(m) => Some(Instant { millis: m }),
            None => None,
        }
    }

    /// Time elapsed from `earlier` to this instant, or zero when `earlier`
    /// is in fact later.
    pub fn duration_since(self, earlier: Instant) -> (r: Duration)
        ensures
            r@ == saturating_diff(self@, earlier@),
    {
        if self.millis >= earlier.millis {
            Duration { millis: self.millis - earlier.millis }
        } else {
            Duration { millis: 0 }
        }
    }
}

} // verus!
