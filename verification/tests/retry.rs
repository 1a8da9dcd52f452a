use sozu_core::network::clock::Moment;
use sozu_core::network::retry::{
    bound_after, decide, ExponentialBackoffPolicy, RetryAction, RetryPolicy, RetryPolicyWrapper,
};

fn at(secs: u64, nanos: u32) -> Moment {
    Moment { secs, nanos }
}

const MAX_FAILS: usize = 10;

#[test]
fn no_fail() {
    let policy = ExponentialBackoffPolicy::new(MAX_FAILS);
    assert_eq!(policy.can_try(), Some(RetryAction::OKAY));
    assert_eq!(policy.max_tries(), MAX_FAILS);
    assert_eq!(policy.current_tries(), 0);
}

#[test]
fn single_fail() {
    let mut policy = ExponentialBackoffPolicy::new(MAX_FAILS);
    policy.fail();
    assert_eq!(policy.current_tries(), 1);
    // the delay is at least one second, so it still runs
    assert_eq!(policy.can_try(), Some(RetryAction::WAIT));
}

#[test]
fn max_fails() {
    let mut policy = ExponentialBackoffPolicy::new(MAX_FAILS);
    for _ in 0..MAX_FAILS {
        policy.fail();
    }
    assert_eq!(policy.can_try(), None);
    assert_eq!(policy.current_tries(), MAX_FAILS);
}

#[test]
fn more_than_max_fails_stays_blocked() {
    let mut policy = ExponentialBackoffPolicy::new(3);
    for _ in 0..20 {
        policy.fail();
    }
    assert_eq!(policy.current_tries(), 3);
    assert_eq!(policy.can_try(), None);
}

#[test]
fn recover_from_fail() {
    let mut policy = ExponentialBackoffPolicy::new(MAX_FAILS);
    for _ in 0..(MAX_FAILS - 1) {
        policy.fail();
    }
    policy.succeed();
    assert_eq!(policy.current_tries(), 0);
    assert_eq!(policy.can_try(), Some(RetryAction::OKAY));
    policy.fail();
    policy.fail();
    policy.fail();
    assert_eq!(policy.current_tries(), 3);
    assert_eq!(policy.can_try(), Some(RetryAction::WAIT));
}

#[test]
fn policy_without_tolerance_is_blocked_from_the_start() {
    let policy = ExponentialBackoffPolicy::new(0);
    assert_eq!(policy.can_try(), None);
}

#[test]
fn many_failures_with_a_large_maximum_do_not_overflow() {
    let mut policy = ExponentialBackoffPolicy::new(200);
    for _ in 0..100 {
        policy.fail();
    }
    assert_eq!(policy.current_tries(), 100);
    assert_eq!(policy.can_try(), Some(RetryAction::WAIT));
}

#[test]
fn wrapper_follows_its_policy() {
    let mut policy = RetryPolicyWrapper::ExponentialBackoff(ExponentialBackoffPolicy::new(2));
    assert_eq!(policy.max_tries(), 2);
    assert_eq!(policy.can_try(), Some(RetryAction::OKAY));
    policy.fail();
    assert_eq!(policy.current_tries(), 1);
    policy.fail();
    assert_eq!(policy.can_try(), None);
    policy.succeed();
    assert_eq!(policy.can_try(), Some(RetryAction::OKAY));
}

#[test]
fn decide_by_counts_and_delay() {
    let last = at(100, 500);
    assert_eq!(decide(10, 0, at(0, 0), 0, at(0, 0)), Some(RetryAction::OKAY));
    assert_eq!(decide(10, 3, last, 4, at(103, 999_999_999)), Some(RetryAction::WAIT));
    assert_eq!(decide(10, 3, last, 4, at(104, 499)), Some(RetryAction::WAIT));
    assert_eq!(decide(10, 3, last, 4, at(104, 500)), Some(RetryAction::OKAY));
    assert_eq!(decide(10, 3, last, 4, at(105, 0)), Some(RetryAction::OKAY));
    assert_eq!(decide(10, 3, last, 4, at(99, 0)), Some(RetryAction::WAIT));
    assert_eq!(decide(10, 3, last, 0, at(99, 0)), Some(RetryAction::OKAY));
    assert_eq!(decide(10, 3, at(0, 0), u64::MAX, at(u64::MAX, 0)), Some(RetryAction::OKAY));
    assert_eq!(decide(10, 10, last, 0, at(1000, 0)), None);
    assert_eq!(decide(10, 11, last, 0, at(1000, 0)), None);
    assert_eq!(decide(0, 0, at(0, 0), 0, at(0, 0)), None);
}

#[test]
fn moments_are_compared_to_the_nanosecond() {
    let last = at(7, 250);
    assert!(last.has_waited(at(7, 250), 0));
    assert!(!last.has_waited(at(7, 249), 0));
    assert!(last.has_waited(at(9, 250), 2));
    assert!(!last.has_waited(at(9, 249), 2));
    assert!(last.has_waited(at(10, 0), 2));
    assert!(!last.has_waited(at(6, 999), 0));
}

#[test]
fn recorded_failure_starts_its_delay_at_its_moment() {
    let mut policy = ExponentialBackoffPolicy::new(MAX_FAILS);
    assert_eq!(policy.last_try(), at(0, 0));
    policy.record_failure(at(50, 10), 3);
    assert_eq!(policy.current_tries(), 1);
    assert_eq!(policy.wait_seconds(), 3);
    assert_eq!(policy.last_try(), at(50, 10));
    assert_eq!(policy.can_try_at(at(53, 9)), Some(RetryAction::WAIT));
    assert_eq!(policy.can_try_at(at(53, 10)), Some(RetryAction::OKAY));
    // a later failure moves the delay to its own moment
    policy.record_failure(at(60, 0), 3);
    assert_eq!(policy.current_tries(), 2);
    assert_eq!(policy.can_try_at(at(62, 0)), Some(RetryAction::WAIT));
    assert_eq!(policy.can_try_at(at(63, 0)), Some(RetryAction::OKAY));
}

#[test]
fn failure_at_a_moment_draws_a_delay_from_there() {
    let mut policy = ExponentialBackoffPolicy::new(MAX_FAILS);
    policy.fail_at(at(20, 0));
    assert_eq!(policy.last_try(), at(20, 0));
    assert_eq!(policy.wait_seconds(), 1);
    assert_eq!(policy.can_try_at(at(20, 999_999_999)), Some(RetryAction::WAIT));
    assert_eq!(policy.can_try_at(at(21, 0)), Some(RetryAction::OKAY));
    policy.succeed_at(at(30, 0));
    assert_eq!(policy.last_try(), at(30, 0));
    assert_eq!(policy.current_tries(), 0);
    assert_eq!(policy.can_try_at(at(0, 0)), Some(RetryAction::OKAY));
}

#[test]
fn failure_sets_the_moment_of_the_clock() {
    let mut policy = ExponentialBackoffPolicy::new(MAX_FAILS);
    let before = policy.clock();
    policy.fail();
    let after = policy.clock();
    let last = policy.last_try();
    assert!((before.secs, before.nanos) <= (last.secs, last.nanos));
    assert!((last.secs, last.nanos) <= (after.secs, after.nanos));
    assert!(after.secs < 5);
}

#[test]
fn delay_bound_doubles_up_to_its_maximum() {
    assert_eq!(bound_after(0), 1);
    assert_eq!(bound_after(1), 2);
    assert_eq!(bound_after(2), 4);
    assert_eq!(bound_after(10), 1024);
    assert_eq!(bound_after(62), 1u64 << 62);
    assert_eq!(bound_after(63), 1u64 << 63);
    assert_eq!(bound_after(64), 1u64 << 63);
    assert_eq!(bound_after(1000), 1u64 << 63);
}

#[test]
fn delay_passes_with_time() {
    let mut policy = ExponentialBackoffPolicy::new(MAX_FAILS);
    // after the first failure the delay is one second
    policy.fail();
    assert_eq!(policy.can_try(), Some(RetryAction::WAIT));
    let start = std::time::Instant::now();
    while start.elapsed() < std::time::Duration::from_millis(1100) {
        std::hint::spin_loop();
    }
    assert_eq!(policy.can_try(), Some(RetryAction::OKAY));
}

#[test]
fn fresh_policy_has_no_delay() {
    assert_eq!(ExponentialBackoffPolicy::new(MAX_FAILS).wait_seconds(), 0);
}

#[test]
fn first_delays_are_one_second() {
    let mut policy = ExponentialBackoffPolicy::new(MAX_FAILS);
    policy.fail();
    assert_eq!(policy.wait_seconds(), 1);
    policy.fail();
    assert_eq!(policy.wait_seconds(), 1);
    policy.succeed();
    assert_eq!(policy.wait_seconds(), 0);
}

#[test]
fn delay_is_drawn_below_the_bound() {
    let mut seen = Vec::new();
    for _ in 0..200 {
        let mut policy = ExponentialBackoffPolicy::new(100);
        for tries in 0..8usize {
            policy.fail();
            let wait = policy.wait_seconds();
            assert!(wait >= 1);
            assert!(wait == 1 || wait < bound_after(tries), "{} after {} failures", wait, tries);
        }
        seen.push(policy.wait_seconds());
    }
    assert!(seen.iter().any(|w| *w != 1));
    assert!(seen.iter().all(|w| *w < 128));
}
