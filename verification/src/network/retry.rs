//! When a backend may be tried again after failed connections.

use vstd::prelude::*;
use std::time::Instant;
use crate::network::clock::{now, random_between, reading, Moment};

verus! {

/// What a policy allows at this moment.
#[derive(Debug, Clone, Copy, PartialEq, Eq, Structural)]
pub enum RetryAction {
    /// A connection may be attempted.
    OKAY,
    /// The delay after the last failure has not passed.
    WAIT,
}

/// What a retry policy holds: the failures it tolerates, those it has seen,
/// the moment of the last one and the seconds to wait after it. Moments
/// are readings of the policy's clock, which starts when the policy is
/// made.
pub struct RetryState {
    pub max_tries: nat,
    pub current_tries: nat,
    pub last_try: Moment,
    pub wait: nat,
}

/// The largest exponent of the bound on the delay.
pub const MAX_EXPONENT: usize = 63;

/// The bound on the delay after a failure that follows `tries` earlier
/// ones: it doubles with every failure until the exponent reaches
/// `MAX_EXPONENT`.
pub open spec fn delay_bound(tries: nat) -> u64 {
    if tries >= MAX_EXPONENT {
        1u64 << 63u64
    } else {
        1u64 << (tries as u64)
    }
}

impl RetryState {
    /// Whether the policy refuses every attempt until it is reset.
    pub open spec fn blocked(self) -> bool {
        self.current_tries >= self.max_tries
    }

    /// The count after one more failure: it grows by one and stops at
    /// `max_tries`.
    pub open spec fn next_tries(self) -> nat {
        if self.current_tries + 1 <= self.max_tries {
            self.current_tries + 1
        } else {
            self.max_tries
        }
    }

    /// Whether `after` follows from one more failure, as far as the counts
    /// go: this is what every policy owes.
    pub open spec fn fails_to(self, after: RetryState) -> bool {
        &&& after.max_tries == self.max_tries
        &&& after.current_tries == self.next_tries()
    }

    /// Whether `after` can follow from one more failure under exponential
    /// backoff. The new delay is drawn at random: one second, or from one
    /// second up to, but not including, the bound.
    pub open spec fn backs_off_to(self, after: RetryState) -> bool {
        &&& self.fails_to(after)
        &&& 1 <= after.wait
        &&& after.wait == 1 || after.wait < delay_bound(self.current_tries)
    }

    /// The state after a failure at the moment `now`, after which `wait`
    /// seconds are to pass.
    pub open spec fn failed(self, now: Moment, wait: nat) -> RetryState {
        RetryState {
            max_tries: self.max_tries,
            current_tries: self.next_tries(),
            last_try: now,
            wait,
        }
    }

    /// The state after a success at the moment `now`.
    pub open spec fn reset(self, now: Moment) -> RetryState {
        RetryState { max_tries: self.max_tries, current_tries: 0, last_try: now, wait: 0 }
    }

    /// Whether the delay after the last failure is over at the moment
    /// `now`. Without a delay it always is.
    pub open spec fn delay_over(self, now: Moment) -> bool {
        self.wait == 0 || self.last_try.waited_out(now, self.wait)
    }

    /// What the policy allows at the moment `now`.
    pub open spec fn permission(self, now: Moment) -> Option<RetryAction> {
        if self.blocked() {
            None
        } else if self.delay_over(now) {
            Some(RetryAction::OKAY)
        } else {
            Some(RetryAction::WAIT)
        }
    }

    /// Whether `answer` is what the policy allows at some moment.
    pub open spec fn permits(self, answer: Option<RetryAction>) -> bool {
        exists|now: Moment| answer == self.permission(now)
    }
}

/// What a policy allows at the moment `now` that has counted
/// `current_tries` failures of `max_tries`, the last of them at `last_try`
/// with `wait` seconds to pass: nothing once the failures have reached the
/// maximum, else an attempt if the delay is over.
pub fn decide(max_tries: usize, current_tries: usize, last_try: Moment, wait: u64, now: Moment) -> (res:
    Option<RetryAction>)
    ensures
        res == (RetryState {
            max_tries: max_tries as nat,
            current_tries: current_tries as nat,
            last_try,
            wait: wait as nat,
        }).permission(now),
{
    if current_tries >= max_tries {
        None
    } else if wait == 0 || last_try.has_waited(now, wait) {
        Some(RetryAction::OKAY)
    } else {
        Some(RetryAction::WAIT)
    }
}

/// The bound on the delay after a failure that follows `tries` earlier ones.
pub fn bound_after(tries: usize) -> (res: u64)
    ensures
        res == delay_bound(tries as nat),
        res >= 1,
{
    let exponent: u64 = if tries >= MAX_EXPONENT {
        63
    } else {
        tries as u64
    };
    assert((1u64 << exponent) >= 1) by (bit_vector)
        requires
            exponent <= 63,
    ;
    1u64 << exponent
}

/// The state of a policy that has seen no failure.
pub open spec fn fresh(max_tries: nat) -> RetryState {
    RetryState { max_tries, current_tries: 0, last_try: Moment::start(), wait: 0 }
}

/// Whether each state of the sequence follows from the one before it by a
/// failure.
pub open spec fn consecutive_failures(states: Seq<RetryState>) -> bool {
    forall|i: int| 0 <= i < states.len() - 1 ==> (#[trigger] states[i]).fails_to(states[i + 1])
}

proof fn lemma_failures_count(states: Seq<RetryState>, k: int)
    requires
        consecutive_failures(states),
        0 <= k < states.len(),
    ensures
        states[k].max_tries == states[0].max_tries,
        states[k].current_tries >= k || states[k].current_tries >= states[0].max_tries,
    decreases k,
{
    if k > 0 {
        lemma_failures_count(states, k - 1);
        assert(states[k - 1].fails_to(states[k]));
    }
}

/// A policy that has reached its maximum refuses every attempt, and stays
/// so under further failures: as many consecutive failures as the maximum
/// or more leave the policy blocked, whatever it had counted before and
/// however long one waits.
pub proof fn lemma_failures_block(states: Seq<RetryState>, answer: Option<RetryAction>)
    requires
        states.len() >= 1,
        consecutive_failures(states),
        states.len() - 1 >= states[0].max_tries,
        states.last().permits(answer),
    ensures
        states.last().blocked(),
        answer is None,
{
    lemma_failures_count(states, states.len() - 1);
}

/// A policy that has seen no failure, and tolerates at least one, allows an
/// attempt at once.
pub proof fn lemma_fresh_policy_allows(max_tries: nat, answer: Option<RetryAction>)
    requires
        max_tries > 0,
        fresh(max_tries).permits(answer),
    ensures
        answer == Some(RetryAction::OKAY),
{
}

/// As long as the exponent has not reached its maximum, one more failure
/// doubles the bound on the delay.
pub proof fn lemma_delay_bound_doubles(tries: nat)
    requires
        tries < MAX_EXPONENT,
    ensures
        delay_bound(tries + 1) == 2 * delay_bound(tries),
{
    let e = tries as u64;
    assert((1u64 << ((e + 1) as u64)) == 2 * (1u64 << e)) by (bit_vector)
        requires
            e < 63,
    ;
}

/// The capability that a backend needs of a retry policy.
pub trait RetryPolicy {
    /// What the policy has counted.
    spec fn state(&self) -> RetryState;

    /// The number of failures after which the policy blocks.
    fn max_tries(&self) -> (res: usize)
        ensures
            res == self.state().max_tries,
    ;

    /// The number of failures counted.
    fn current_tries(&self) -> (res: usize)
        ensures
            res == self.state().current_tries,
    ;

    /// Records a failed attempt: the failures counted grow by one, up to
    /// the maximum.
    fn fail(&mut self)
        ensures
            old(self).state().fails_to(final(self).state()),
    ;

    /// Records a successful attempt: the failures are forgotten and no
    /// delay runs.
    fn succeed(&mut self)
        ensures
            final(self).state().max_tries == old(self).state().max_tries,
            final(self).state().current_tries == 0,
            final(self).state().wait == 0,
    ;

    /// Whether a new attempt is permitted now: `None` once the failures
    /// have reached the maximum, until the policy is reset; else `OKAY` or,
    /// while the delay after the last failure runs, `WAIT`.
    fn can_try(&self) -> (res: Option<RetryAction>)
        ensures
            self.state().permits(res),
    ;
}

/// Exponential backoff: after each failure the delay is drawn below a bound
/// that doubles, and after `max_tries` failures the policy blocks.
#[derive(Debug, PartialEq, Eq)]
pub struct ExponentialBackoffPolicy {
    max_tries: usize,
    current_tries: usize,
    /// When the policy was made: its clock counts from here.
    started: Instant,
    last_try: Moment,
    wait: u64,
}

impl ExponentialBackoffPolicy {
    /// A policy that has seen no failure.
    pub fn new(max_tries: usize) -> (res: Self)
        ensures
            res.state() == fresh(max_tries as nat),
    {
        ExponentialBackoffPolicy {
            max_tries,
            current_tries: 0,
            started: now(),
            last_try: Moment { secs: 0, nanos: 0 },
            wait: 0,
        }
    }

    /// The seconds that must pass after the last failure before the next
    /// attempt.
    pub fn wait_seconds(&self) -> (res: u64)
        ensures
            res == self.state().wait,
    {
        self.wait
    }

    /// The moment of the last failure or success, on the policy's clock.
    pub fn last_try(&self) -> (res: Moment)
        ensures
            res == self.state().last_try,
    {
        self.last_try
    }

    /// The policy's clock at this moment. Nothing is known of the reading.
    pub fn clock(&self) -> (moment: Moment) {
        reading(&self.started)
    }

    /// Records a failure at the moment `now`, after which `wait` seconds
    /// are to pass.
    pub fn record_failure(&mut self, now: Moment, wait: u64)
        ensures
            final(self).state() == old(self).state().failed(now, wait as nat),
    {
        self.wait = wait;
        self.last_try = now;
        self.current_tries = if self.current_tries < self.max_tries {
            self.current_tries + 1
        } else {
            self.max_tries
        };
    }

    /// Records a failure at the moment `now`, and draws the delay before
    /// the next attempt.
    pub fn fail_at(&mut self, now: Moment)
        ensures
            old(self).state().backs_off_to(final(self).state()),
            final(self).state().last_try == now,
    {
        let bound = bound_after(self.current_tries);
        let wait = if bound == 1 {
            1
        } else {
            random_between(1, bound)
        };
        self.record_failure(now, wait);
    }

    /// Records a success at the moment `now`.
    pub fn succeed_at(&mut self, now: Moment)
        ensures
            final(self).state() == old(self).state().reset(now),
    {
        self.wait = 0;
        self.last_try = now;
        self.current_tries = 0;
    }

    /// What the policy allows at the moment `now`.
    pub fn can_try_at(&self, now: Moment) -> (res: Option<RetryAction>)
        ensures
            res == self.state().permission(now),
    {
        decide(self.max_tries, self.current_tries, self.last_try, self.wait, now)
    }
}

impl RetryPolicy for ExponentialBackoffPolicy {
    closed spec fn state(&self) -> RetryState {
        RetryState {
            max_tries: self.max_tries as nat,
            current_tries: self.current_tries as nat,
            last_try: self.last_try,
            wait: self.wait as nat,
        }
    }

    fn max_tries(&self) -> (res: usize) {
        self.max_tries
    }

    fn current_tries(&self) -> (res: usize) {
        self.current_tries
    }

    /// Records a failed attempt at the moment that the clock gives, and
    /// draws the delay before the next one.
    fn fail(&mut self)
        ensures
            old(self).state().backs_off_to(final(self).state()),
    {
        let now = self.clock();
        self.fail_at(now);
    }

    fn succeed(&mut self) {
        let now = self.clock();
        self.succeed_at(now);
    }

    fn can_try(&self) -> (res: Option<RetryAction>) {
        let now = self.clock();
        self.can_try_at(now)
    }
}

/// The policy of a backend, whichever kind it is.
#[derive(Debug, PartialEq, Eq)]
pub enum RetryPolicyWrapper {
    ExponentialBackoff(ExponentialBackoffPolicy),
}

impl From<ExponentialBackoffPolicy> for RetryPolicyWrapper {
    fn from(policy: ExponentialBackoffPolicy) -> (res: RetryPolicyWrapper) {
        RetryPolicyWrapper::ExponentialBackoff(policy)
    }
}

impl vstd::std_specs::convert::FromSpecImpl<ExponentialBackoffPolicy> for RetryPolicyWrapper {
    open spec fn obeys_from_spec() -> bool {
        true
    }

    open spec fn from_spec(policy: ExponentialBackoffPolicy) -> RetryPolicyWrapper {
        RetryPolicyWrapper::ExponentialBackoff(policy)
    }
}

impl RetryPolicy for RetryPolicyWrapper {
    open spec fn state(&self) -> RetryState {
        match self {
            RetryPolicyWrapper::ExponentialBackoff(policy) => policy.state(),
        }
    }

    fn max_tries(&self) -> (res: usize) {
        match self {
            RetryPolicyWrapper::ExponentialBackoff(policy) => policy.max_tries(),
        }
    }

    fn current_tries(&self) -> (res: usize) {
        match self {
            RetryPolicyWrapper::ExponentialBackoff(policy) => policy.current_tries(),
        }
    }

    fn fail(&mut self)
        ensures
            old(self).state().backs_off_to(final(self).state()),
    {
        match self {
            RetryPolicyWrapper::ExponentialBackoff(policy) => policy.fail(),
        }
    }

    fn succeed(&mut self) {
        match self {
            RetryPolicyWrapper::ExponentialBackoff(policy) => policy.succeed(),
        }
    }

    fn can_try(&self) -> (res: Option<RetryAction>) {
        match self {
            RetryPolicyWrapper::ExponentialBackoff(policy) => policy.can_try(),
        }
    }
}

} // verus!
