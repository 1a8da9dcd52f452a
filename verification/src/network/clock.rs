//! The monotonic clock of the standard library, and random delays.

use vstd::prelude::*;
use rand::Rng;
use std::time::{Duration, Instant};

verus! {

/// A moment of the monotonic clock, `std::time::Instant`. Nothing is known
/// of what it holds.
#[verifier::external_type_specification]
#[verifier::external_body]
pub struct ExInstant(Instant);

/// `Instant::now`: the present moment. Nothing is claimed of it.
#[verifier::external_body]
pub(crate) fn now() -> (moment: Instant) {
    Instant::now()
}

/// `Instant::elapsed`: the time that has passed since `moment`. Nothing is
/// claimed of it.
#[verifier::external_body]
pub(crate) fn elapsed_since(moment: &Instant) -> (passed: Duration) {
    moment.elapsed()
}

/// `Duration::as_secs`: the whole seconds of a duration. Nothing is claimed
/// of their number.
#[verifier::external_body]
pub(crate) fn whole_seconds(passed: &Duration) -> (seconds: u64) {
    passed.as_secs()
}

/// `Duration::subsec_nanos`: the nanoseconds of a duration beyond its whole
/// seconds. Nothing is claimed of their number.
#[verifier::external_body]
pub(crate) fn nanoseconds(passed: &Duration) -> (nanos: u32) {
    passed.subsec_nanos()
}

/// A reading of the clock: the time that has passed since a fixed moment,
/// as whole seconds and the nanoseconds of the second that has begun.
#[derive(Debug, Clone, Copy, PartialEq, Eq, Structural)]
pub struct Moment {
    pub secs: u64,
    pub nanos: u32,
}

impl Moment {
    /// The fixed moment itself.
    pub open spec fn start() -> Moment {
        Moment { secs: 0, nanos: 0 }
    }

    /// Whether at least `wait` seconds lie between this moment and the
    /// later moment `now`.
    pub open spec fn waited_out(self, now: Moment, wait: nat) -> bool {
        &&& now.secs >= self.secs
        &&& now.secs - self.secs > wait || (now.secs - self.secs == wait && now.nanos >= self.nanos)
    }

    /// Whether at least `wait` seconds lie between this moment and the
    /// later moment `now`.
    pub fn has_waited(&self, now: Moment, wait: u64) -> (res: bool)
        ensures
            res == self.waited_out(now, wait as nat),
    {
        if now.secs < self.secs {
            false
        } else {
            let passed = now.secs - self.secs;
            passed > wait || (passed == wait && now.nanos >= self.nanos)
        }
    }
}

/// The time that has passed since `start`, as the clock gives it now.
pub(crate) fn reading(start: &Instant) -> (moment: Moment) {
    let passed = elapsed_since(start);
    Moment { secs: whole_seconds(&passed), nanos: nanoseconds(&passed) }
}

/// `Rng::gen_range` of rand on the generator of the current thread
/// (`rand::thread_rng`): a number from `low` up to, but not including,
/// `high`. It panics unless `low < high`. `thread_rng` panics where the
/// system offers no entropy at all.
#[verifier::external_body]
pub(crate) fn random_between(low: u64, high: u64) -> (drawn: u64)
    requires
        low < high,
    ensures
        low <= drawn < high,
{
    rand::thread_rng().gen_range(low, high)
}

} // verus!
