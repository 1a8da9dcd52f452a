use sozu_core::network::backend::may_open;
use sozu_core::network::retry::{RetryAction, RetryPolicy};
use sozu_core::network::{Backend, BackendProtocol, BackendStatus, ConnectionError, SocketAddress};

fn address() -> SocketAddress {
    SocketAddress::V4 { octets: [127, 0, 0, 1], port: 8080 }
}

fn backend() -> Backend {
    Backend::new("instance-1", address(), 7)
}

#[test]
fn new_backend_is_normal_and_idle() {
    let b = backend();
    assert_eq!(b.id, 7);
    assert_eq!(b.instance_id, "instance-1");
    assert_eq!(b.address, address());
    assert_eq!(b.address.port(), 8080);
    assert_eq!(b.status, BackendStatus::Normal);
    assert_eq!(b.active_connections, 0);
    assert_eq!(b.failures, 0);
    assert_eq!(b.retry_policy.max_tries(), 10);
    assert_eq!(b.retry_policy.current_tries(), 0);
}

#[test]
fn new_backend_can_open() {
    let b = backend();
    assert!(b.can_open());
}

#[test]
fn inc_connections_counts_in_normal_status() {
    let mut b = backend();
    assert_eq!(b.inc_connections(), Some(1));
    assert_eq!(b.inc_connections(), Some(2));
    assert_eq!(b.active_connections, 2);
}

#[test]
fn inc_connections_refused_when_closing_or_closed() {
    let mut b = backend();
    b.inc_connections();
    b.set_closing();
    assert_eq!(b.inc_connections(), None);
    assert_eq!(b.active_connections, 1);
    assert_eq!(b.dec_connections(), None);
    assert_eq!(b.status, BackendStatus::Closed);
    assert_eq!(b.inc_connections(), None);
    assert_eq!(b.active_connections, 0);
}

#[test]
fn dec_connections_counts_down_in_normal_status() {
    let mut b = backend();
    b.inc_connections();
    b.inc_connections();
    b.inc_connections();
    assert_eq!(b.dec_connections(), Some(2));
    assert_eq!(b.dec_connections(), Some(1));
    assert_eq!(b.dec_connections(), Some(0));
    assert_eq!(b.status, BackendStatus::Normal);
    assert_eq!(b.active_connections, 0);
}

#[test]
fn dec_connections_at_zero_closes_and_returns_nothing() {
    let mut b = backend();
    assert_eq!(b.dec_connections(), None);
    assert_eq!(b.status, BackendStatus::Closed);
    assert_eq!(b.active_connections, 0);
    for _ in 0..5 {
        assert_eq!(b.dec_connections(), None);
        assert_eq!(b.status, BackendStatus::Closed);
        assert_eq!(b.active_connections, 0);
    }
}

#[test]
fn closing_backend_closes_with_its_last_connection() {
    let mut b = backend();
    b.inc_connections();
    b.inc_connections();
    b.set_closing();
    assert_eq!(b.status, BackendStatus::Closing);
    assert_eq!(b.dec_connections(), Some(1));
    assert_eq!(b.status, BackendStatus::Closing);
    assert_eq!(b.dec_connections(), None);
    assert_eq!(b.status, BackendStatus::Closed);
    assert_eq!(b.active_connections, 0);
    assert_eq!(b.dec_connections(), None);
    assert_eq!(b.status, BackendStatus::Closed);
    assert_eq!(b.active_connections, 0);
}

#[test]
fn closed_backend_with_a_stray_count_is_left_alone() {
    let mut b = backend();
    b.status = BackendStatus::Closed;
    b.active_connections = 3;
    assert_eq!(b.dec_connections(), None);
    assert_eq!(b.status, BackendStatus::Closed);
    assert_eq!(b.active_connections, 3);
}

#[test]
fn set_closing_keeps_the_counts() {
    let mut b = backend();
    b.inc_connections();
    b.set_closing();
    assert_eq!(b.status, BackendStatus::Closing);
    assert_eq!(b.active_connections, 1);
    assert_eq!(b.failures, 0);
    assert!(!b.can_open());
}

#[test]
fn retry_policy_can_be_changed_in_place() {
    let mut b = backend();
    b.retry_policy().fail();
    assert_eq!(b.retry_policy.current_tries(), 1);
    b.retry_policy().succeed();
    assert_eq!(b.retry_policy.current_tries(), 0);
    assert!(b.can_open());
}

#[test]
fn try_connect_success_counts_the_connection() {
    let mut b = backend();
    let res = b.try_connect(BackendProtocol::TCP, |protocol, addr| {
        assert_eq!(protocol, BackendProtocol::TCP);
        assert_eq!(addr, address());
        Some("socket")
    });
    assert_eq!(res, Ok("socket"));
    assert_eq!(b.active_connections, 1);
    assert_eq!(b.failures, 0);
    assert_eq!(b.retry_policy.current_tries(), 0);
}

#[test]
fn try_connect_failure_is_recorded() {
    let mut b = backend();
    let res: Result<u8, ConnectionError> = b.try_connect(BackendProtocol::TLS, |_, _| None);
    assert_eq!(res, Err(ConnectionError::NoBackendAvailable));
    assert_eq!(b.active_connections, 0);
    assert_eq!(b.failures, 1);
    assert_eq!(b.retry_policy.current_tries(), 1);
    assert_eq!(b.status, BackendStatus::Normal);
}

#[test]
fn try_connect_does_not_try_a_closing_backend() {
    let mut b = backend();
    b.set_closing();
    let mut called = false;
    let res: Result<u8, ConnectionError> = b.try_connect(BackendProtocol::TCP, |_, _| {
        called = true;
        Some(1)
    });
    assert_eq!(res, Err(ConnectionError::NoBackendAvailable));
    assert!(!called);
    assert_eq!(b.active_connections, 0);
    assert_eq!(b.failures, 0);
    assert_eq!(b.retry_policy.current_tries(), 0);
}

#[test]
fn failures_accumulate_until_the_backend_cannot_open() {
    let mut b = backend();
    for n in 1..=10 {
        let res: Result<u8, ConnectionError> = b.try_connect(BackendProtocol::TCP, |_, _| None);
        assert_eq!(res, Err(ConnectionError::NoBackendAvailable));
        assert_eq!(b.failures, n);
    }
    assert_eq!(b.retry_policy.current_tries(), 10);
    assert_eq!(b.retry_policy.can_try(), None);
    assert!(!b.can_open());
}

#[test]
fn success_does_not_clear_the_failures() {
    let mut b = backend();
    let _: Result<u8, ConnectionError> = b.try_connect(BackendProtocol::TCP, |_, _| None);
    let res = b.try_connect(BackendProtocol::TCP, |_, _| Some(5u8));
    assert_eq!(res, Ok(5));
    assert_eq!(b.failures, 1);
    assert_eq!(b.retry_policy.current_tries(), 1);
}

#[test]
fn may_open_needs_normal_status_and_okay() {
    assert!(may_open(BackendStatus::Normal, Some(RetryAction::OKAY)));
    assert!(!may_open(BackendStatus::Normal, Some(RetryAction::WAIT)));
    assert!(!may_open(BackendStatus::Normal, None));
    assert!(!may_open(BackendStatus::Closing, Some(RetryAction::OKAY)));
    assert!(!may_open(BackendStatus::Closed, Some(RetryAction::OKAY)));
}

#[test]
fn closed_backend_stays_closed() {
    let mut b = backend();
    assert_eq!(b.dec_connections(), None);
    assert_eq!(b.status, BackendStatus::Closed);
    b.set_closing();
    assert_eq!(b.status, BackendStatus::Closed);
    assert_eq!(b.active_connections, 0);
    assert_eq!(b.inc_connections(), None);
}

#[test]
fn set_closing_twice_is_set_closing_once() {
    let mut b = backend();
    b.inc_connections();
    b.set_closing();
    b.set_closing();
    assert_eq!(b.status, BackendStatus::Closing);
    assert_eq!(b.active_connections, 1);
}
