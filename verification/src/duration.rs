use vstd::prelude::*;

verus! {

/// Milliseconds between two ticks of a countdown.
pub const TICK_MILLIS: u64 = 1000;

/// The number of ticks a countdown of `millis` milliseconds takes: the
/// duration in seconds, rounded up.
pub open spec fn ticks_needed(millis: nat) -> nat {
    (millis + 999) / 1000
}

/// `ticks_needed(millis)` is the least number of whole seconds that covers
/// `millis` milliseconds.
pub proof fn law_ticks_needed_rounds_up(millis: nat, n: nat)
    ensures
        ticks_needed(millis) * 1000 >= millis,
        n * 1000 >= millis ==> n >= ticks_needed(millis),
{
}

/// An elapsed-time magnitude, held in milliseconds.
#[derive(Clone, Copy, Debug, PartialEq, Eq, Structural)]
pub struct Duration {
    pub millis: u64,
}

impl View for Duration {
    type V = nat;

    open spec fn view(&self) -> nat {
        self.millis as nat
    }
}

impl Duration {
    /// The duration of `millis` milliseconds.
    pub fn from_millis(millis: u64) -> (d: Duration)
        ensures
            d@ == millis,
    {
        Duration { millis }
    }

    /// The duration of `secs` seconds, if it can be held in milliseconds.
    pub fn from_secs(secs: u64) -> (d: Option<Duration>)
        ensures
            match d {
                Some(d) => d@ == secs * 1000,
                None => secs * 1000 > u64::MAX,
            },
    {
        if secs <= u64::MAX / 1000 {
            Some(Duration { millis: secs * 1000 })
        } else {
            None
        }
    }

    /// The magnitude in milliseconds.
    pub fn as_millis(&self) -> (millis: u64)
        ensures
            millis == self@,
    {
        self.millis
    }

    /// The magnitude in whole seconds, rounded down.
    pub fn as_secs(&self) -> (secs: u64)
        ensures
            secs == self@ / 1000,
    {
        self.millis / 1000
    }

    /// Whether this is the empty duration.
    pub fn is_zero(&self) -> (zero: bool)
        ensures
            zero == (self@ == 0),
    {
        self.millis == 0
    }

    /// The number of ticks a countdown of this duration takes.
    pub fn ticks(&self) -> (n: u64)
        ensures
            n == ticks_needed(self@),
    {
        let whole: u64 = self.millis / TICK_MILLIS;
        if self.millis % TICK_MILLIS == 0 {
            whole
        } else {
            whole + 1
        }
    }
}

} // verus!
