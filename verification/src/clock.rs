//! The source of the current time. Expiry decisions read time through a
//! [`Clock`], so callers can supply a controlled clock.

use vstd::prelude::*;

use crate::time_model::{representable, Duration, Timestamp};

verus! {

/// A source of the current time.
pub trait Clock {
    fn now(&self) -> Timestamp;
}

/// Calls `time::OffsetDateTime::now_utc` and reads its Unix timestamp in
/// nanoseconds. Claimed: the instant is representable, as every
/// `OffsetDateTime` is. Nothing else is claimed of it.
#[verifier::external_body]
fn system_now() -> (t: Timestamp)
    ensures
        representable(t.unix_nanos as int),
{
    Timestamp { unix_nanos: time::OffsetDateTime::now_utc().unix_timestamp_nanos() }
}

/// The system wall clock.
#[derive(Debug, Default, Clone, Copy)]
pub struct SystemClock;

impl Clock for SystemClock {
    fn now(&self) -> (t: Timestamp)
        ensures
            representable(t.unix_nanos as int),
    {
        system_now()
    }
}

/// A clock that moves only when told to, for deterministic expiry checks.
#[derive(Debug, Clone, Copy, PartialEq, Eq)]
pub struct FakeClock {
    current: Timestamp,
}

impl FakeClock {
    /// The instant the clock shows.
    pub closed spec fn spec_current(self) -> Timestamp {
        self.current
    }

    /// A clock showing `instant`.
    pub fn new_at(instant: Timestamp) -> (c: FakeClock)
        ensures
            c.spec_current() == instant,
    {
        FakeClock { current: instant }
    }

    /// Moves the clock by `delta`, which may be negative; the instant
    /// reached must be representable.
    pub fn advance(&mut self, delta: Duration)
        requires
            representable(old(self).spec_current().unix_nanos + delta.nanos),
        ensures
            final(self).spec_current().unix_nanos == old(self).spec_current().unix_nanos + delta.nanos,
    {
        self.current = self.current.plus(delta);
    }
}

impl Clock for FakeClock {
    fn now(&self) -> (t: Timestamp)
        ensures
            t == self.spec_current(),
    {
        self.current
    }
}

} // verus!
