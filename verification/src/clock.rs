//! The tick gate: a counter of ticks taken, held against the wall time that
//! has passed since the clock was made.

use std::time::Duration;
use std::time::Instant;
use vstd::prelude::*;

verus! {

/// A point of the monotonic clock. Nothing is known of what it holds.
#[verifier::external_type_specification]
#[verifier::external_body]
pub struct ExInstant(Instant);

/// `std::time::Instant::now` reads the monotonic clock; nothing is claimed of
/// the instant that it returns.
pub assume_specification[ Instant::now ]() -> (now: Instant)
;

/// `std::time::Instant::elapsed` gives the time that has passed since the
/// instant was taken; nothing is claimed of that time.
pub assume_specification[ Instant::elapsed ](since: &Instant) -> (passed: Duration)
;

/// `std::time::Duration::as_nanos` gives the duration in whole nanoseconds;
/// nothing is claimed of the number.
pub assume_specification[ Duration::as_nanos ](duration: &Duration) -> (nanos: u128)
;

/// Nanoseconds in one second.
pub const NANOS_PER_SECOND: u64 = 1_000_000_000;

/// Whether a clock of `per_second` ticks a second that has taken `count`
/// ticks is owed another when `elapsed_nanos` nanoseconds have passed:
/// the ticks taken span less time than has passed.
pub open spec fn due(count: nat, per_second: nat, elapsed_nanos: nat) -> bool {
    count * NANOS_PER_SECOND < elapsed_nanos * per_second
}

/// A fixed-rate tick gate.
pub struct Clock {
    per_second: u32,
    instant: Instant,
    count: u64,
}

impl Clock {
    /// The rate, in ticks per second.
    pub closed spec fn per_second(&self) -> nat {
        self.per_second as nat
    }

    /// Ticks taken so far.
    pub closed spec fn ticks(&self) -> nat {
        self.count as nat
    }

    /// The instant at which the clock was made, from which its time counts.
    pub closed spec fn started(&self) -> Instant {
        self.instant
    }

    /// A clock of `per_second` ticks a second that starts now with no tick taken.
    pub fn new(per_second: u32) -> (clock: Clock)
        ensures
            clock.ticks() == 0,
            clock.per_second() == per_second,
    {
        Clock { per_second, count: 0, instant: Instant::now() }
    }

    /// Takes one tick; rate and start stay as they are. The count stays where
    /// it is once it has reached the largest number it can hold.
    pub fn ack(&mut self)
        ensures
            final(self).per_second() == old(self).per_second(),
            final(self).started() == old(self).started(),
            final(self).ticks() == if old(self).ticks() < u64::MAX {
                old(self).ticks() + 1
            } else {
                old(self).ticks()
            },
    {
        if self.count < u64::MAX {
            self.count = self.count + 1;
        }
    }

    /// Ticks taken so far.
    pub fn count(&self) -> (count: u64)
        ensures
            count == self.ticks(),
    {
        self.count
    }

    /// The nanoseconds that have passed since the clock was made, as the
    /// monotonic clock of the machine gives them.
    pub fn elapsed_nanos(&self) -> (nanos: u128) {
        let passed = self.instant.elapsed();
        passed.as_nanos()
    }

    /// Whether a tick is owed now. The answer depends on the time read; at
    /// rate zero no time makes a tick due.
    pub fn rdy(&self) -> (ready: bool)
        ensures
            ready ==> self.per_second() > 0,
    {
        let nanos: u128 = self.elapsed_nanos();
        assert(nanos * 0 == 0);
        self.rdy_at(nanos)
    }

    /// Whether a tick is owed once `elapsed_nanos` nanoseconds have passed
    /// since the clock was made.
    pub fn rdy_at(&self, elapsed_nanos: u128) -> (ready: bool)
        ensures
            ready == due(self.ticks(), self.per_second(), elapsed_nanos as nat),
    {
        let taken: u128 = self.count as u128 * (NANOS_PER_SECOND as u128);
        match elapsed_nanos.checked_mul(self.per_second as u128) {
            Some(earned) => taken < earned,
            None => true,
        }
    }
}

} // verus!
