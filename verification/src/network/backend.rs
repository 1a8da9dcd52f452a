//! The record that the proxy keeps of one backend: its status, its
//! connections and its failures.

use vstd::prelude::*;
use vstd::string::*;
use crate::network::address::SocketAddress;
use crate::network::retry::{
    fresh, ExponentialBackoffPolicy, RetryAction, RetryPolicy, RetryPolicyWrapper,
};
use crate::network::ConnectionError;

verus! {

/// Transport spoken with a backend.
#[derive(Debug, Clone, Copy, PartialEq, Eq, Structural)]
pub enum BackendProtocol {
    TCP,
    TLS,
}

/// Life cycle of a backend. A backend that is to be removed is `Closing`
/// while connections to it remain, and `Closed` once the last one is gone.
#[derive(Debug, Clone, Copy, PartialEq, Eq, Structural)]
pub enum BackendStatus {
    Normal,
    Closing,
    Closed,
}

/// Number of failures that a new backend tolerates.
pub const DEFAULT_MAX_TRIES: usize = 10;

/// One backend of an application.
#[derive(Debug, PartialEq, Eq)]
pub struct Backend {
    pub id: u32,
    pub instance_id: String,
    pub address: SocketAddress,
    pub status: BackendStatus,
    pub retry_policy: RetryPolicyWrapper,
    pub active_connections: usize,
    pub failures: usize,
}

/// What the closing of one connection makes of a status and a number of
/// connections.
pub struct Closing {
    pub status: BackendStatus,
    pub active_connections: nat,
    /// The connections that remain, where the record still counts them.
    pub remaining: Option<nat>,
}

/// The effect of closing one connection. At zero nothing is subtracted and
/// the backend is closed. A closing backend is closed when its last
/// connection goes.
pub open spec fn after_close(status: BackendStatus, active_connections: nat) -> Closing {
    if active_connections == 0 {
        Closing { status: BackendStatus::Closed, active_connections: 0, remaining: None }
    } else {
        let left = (active_connections - 1) as nat;
        match status {
            BackendStatus::Normal => Closing { status, active_connections: left, remaining: Some(left) },
            BackendStatus::Closed => Closing { status, active_connections, remaining: None },
            BackendStatus::Closing => if left == 0 {
                Closing { status: BackendStatus::Closed, active_connections: 0, remaining: None }
            } else {
                Closing { status, active_connections: left, remaining: Some(left) }
            },
        }
    }
}

/// The effect of closing `n` connections, one after the other.
pub open spec fn after_closes(status: BackendStatus, active_connections: nat, n: nat) -> Closing
    decreases n,
{
    if n == 0 {
        Closing { status, active_connections, remaining: None }
    } else {
        let before = after_closes(status, active_connections, (n - 1) as nat);
        after_close(before.status, before.active_connections)
    }
}

/// Whether a backend of this status may be connected to, given what its
/// retry policy allows.
pub open spec fn open_permitted(status: BackendStatus, permission: Option<RetryAction>) -> bool {
    status == BackendStatus::Normal && permission == Some(RetryAction::OKAY)
}

/// Whether a backend of this status may be connected to, given what its
/// retry policy allows.
pub fn may_open(status: BackendStatus, permission: Option<RetryAction>) -> (res: bool)
    ensures
        res == open_permitted(status, permission),
{
    match permission {
        Some(action) => status == BackendStatus::Normal && action == RetryAction::OKAY,
        None => false,
    }
}

/// Closing connections never takes the count below zero, nor above what it
/// was.
pub proof fn lemma_closes_never_add(status: BackendStatus, active_connections: nat, n: nat)
    ensures
        after_closes(status, active_connections, n).active_connections <= active_connections,
    decreases n,
{
    if n > 0 {
        lemma_closes_never_add(status, active_connections, (n - 1) as nat);
    }
}

/// At zero connections, every further close leaves the backend closed, at
/// zero, and returns no count.
pub proof fn lemma_closes_at_zero(status: BackendStatus, n: nat)
    requires
        n >= 1,
    ensures
        after_closes(status, 0, n) == (Closing {
            status: BackendStatus::Closed,
            active_connections: 0,
            remaining: None,
        }),
    decreases n,
{
    if n > 1 {
        lemma_closes_at_zero(status, (n - 1) as nat);
    } else {
        assert(after_closes(status, 0, 0).active_connections == 0);
    }
}

/// A closing backend with connections becomes closed exactly when the last
/// of them ends: it is still closing before that, and closed with no
/// connections at every close from then on.
pub proof fn lemma_closing_drains_once(active_connections: nat, n: nat)
    requires
        active_connections >= 1,
    ensures
        n < active_connections ==> after_closes(BackendStatus::Closing, active_connections, n).status
            == BackendStatus::Closing && after_closes(
            BackendStatus::Closing,
            active_connections,
            n,
        ).active_connections == active_connections - n,
        n >= active_connections ==> after_closes(BackendStatus::Closing, active_connections, n) == (Closing {
            status: BackendStatus::Closed,
            active_connections: 0,
            remaining: None,
        }),
    decreases n,
{
    if n > 0 {
        lemma_closing_drains_once(active_connections, (n - 1) as nat);
    }
}

impl Backend {
    /// Whether the record is consistent: a closed backend has no
    /// connections.
    pub open spec fn well_formed(&self) -> bool {
        self.status == BackendStatus::Closed ==> self.active_connections == 0
    }

    /// Whether `after` is this record with nothing changed but the fields
    /// that connections and failures touch.
    pub open spec fn same_backend(&self, after: &Backend) -> bool {
        &&& after.id == self.id
        &&& after.instance_id == self.instance_id
        &&& after.address == self.address
    }

    /// The record of a new backend: in normal status, with no connection
    /// and no failure.
    pub fn new(instance_id: &str, addr: SocketAddress, id: u32) -> (res: Backend)
        ensures
            res.id == id,
            res.instance_id@ == instance_id@,
            res.address == addr,
            res.status == BackendStatus::Normal,
            res.retry_policy.state() == fresh(DEFAULT_MAX_TRIES as nat),
            res.active_connections == 0,
            res.failures == 0,
            res.well_formed(),
    {
        let desired_policy = ExponentialBackoffPolicy::new(DEFAULT_MAX_TRIES);
        Backend {
            id,
            instance_id: String::from_str(instance_id),
            address: addr,
            status: BackendStatus::Normal,
            retry_policy: RetryPolicyWrapper::from(desired_policy),
            active_connections: 0,
            failures: 0,
        }
    }

    /// Marks the backend for removal: it takes no new connection, and
    /// those that it has may finish. A backend that is closed stays
    /// closed.
    pub fn set_closing(&mut self)
        ensures
            old(self).status == BackendStatus::Closed ==> *final(self) == *old(self),
            old(self).status != BackendStatus::Closed ==> *final(self) == (Backend {
                status: BackendStatus::Closing,
                ..*old(self)
            }),
            old(self).well_formed() ==> final(self).well_formed(),
    {
        if self.status != BackendStatus::Closed {
            self.status = BackendStatus::Closing;
        }
    }

    /// The retry policy of the backend, to be changed in place.
    pub fn retry_policy(&mut self) -> (res: &mut RetryPolicyWrapper)
        ensures
            *res == old(self).retry_policy,
            *final(self) == (Backend { retry_policy: *final(res), ..*old(self) }),
    {
        &mut self.retry_policy
    }

    /// Whether a connection to the backend may be opened now: its status is
    /// normal and its retry policy allows an attempt. A backend whose
    /// policy is blocked, or whose status is not normal, cannot be opened;
    /// one in normal status whose policy is not blocked and has no delay
    /// running can.
    pub fn can_open(&self) -> (res: bool)
        ensures
            exists|permission: Option<RetryAction>|
                self.retry_policy.state().permits(permission) && res == open_permitted(
                    self.status,
                    permission,
                ),
            res ==> self.status == BackendStatus::Normal && !self.retry_policy.state().blocked(),
            self.status == BackendStatus::Normal && !self.retry_policy.state().blocked()
                && self.retry_policy.state().wait == 0 ==> res,
    {
        let permission = self.retry_policy.can_try();
        may_open(self.status, permission)
    }

    /// Counts a new connection. Only a backend in normal status takes one.
    pub fn inc_connections(&mut self) -> (res: Option<usize>)
        requires
            old(self).status == BackendStatus::Normal ==> old(self).active_connections < usize::MAX,
        ensures
            old(self).status == BackendStatus::Normal ==> res == Some(
                (old(self).active_connections + 1) as usize,
            ) && *final(self) == (Backend {
                active_connections: (old(self).active_connections + 1) as usize,
                ..*old(self)
            }),
            old(self).status != BackendStatus::Normal ==> res is None && *final(self) == *old(self),
            old(self).well_formed() ==> final(self).well_formed(),
    {
        if self.status == BackendStatus::Normal {
            self.active_connections += 1;
            Some(self.active_connections)
        } else {
            None
        }
    }

    /// Counts the end of a connection, and returns how many remain where
    /// the record still counts them. The count never goes below zero: at
    /// zero the backend is closed and nothing is returned. A closing
    /// backend is closed when its last connection ends.
    pub fn dec_connections(&mut self) -> (res: Option<usize>)
        ensures
            ({
                let closing = after_close(old(self).status, old(self).active_connections as nat);
                &&& *final(self) == (Backend {
                    status: closing.status,
                    active_connections: closing.active_connections as usize,
                    ..*old(self)
                })
                &&& final(self).active_connections == closing.active_connections
                &&& match res {
                    Some(left) => closing.remaining == Some(left as nat),
                    None => closing.remaining is None,
                }
            }),
            final(self).active_connections <= old(self).active_connections,
            old(self).well_formed() ==> final(self).well_formed(),
    {
        if self.active_connections == 0 {
            self.status = BackendStatus::Closed;
            return None;
        }
        match self.status {
            BackendStatus::Normal => {
                self.active_connections -= 1;
                Some(self.active_connections)
            },
            BackendStatus::Closed => {
                None
            },
            BackendStatus::Closing => {
                self.active_connections -= 1;
                if self.active_connections == 0 {
                    self.status = BackendStatus::Closed;
                    None
                } else {
                    Some(self.active_connections)
                }
            },
        }
    }

    /// Tries to connect to the backend with `connect`, which is handed the
    /// protocol and the address and returns the socket, or nothing if the
    /// connection failed.
    ///
    /// A backend that is not in normal status is not tried. A connection
    /// that succeeds is counted and its socket returned. One that fails is
    /// recorded with the retry policy and counted as a failure.
    pub fn try_connect<S, F: FnOnce(BackendProtocol, SocketAddress) -> Option<S>>(
        &mut self,
        protocol: BackendProtocol,
        connect: F,
    ) -> (res: Result<S, ConnectionError>)
        requires
            old(self).status == BackendStatus::Normal ==> call_requires(
                connect,
                (protocol, old(self).address),
            ),
            old(self).status == BackendStatus::Normal ==> old(self).active_connections < usize::MAX
                && old(self).failures < usize::MAX,
        ensures
            old(self).status != BackendStatus::Normal ==> {
                &&& res == Err::<S, ConnectionError>(ConnectionError::NoBackendAvailable)
                &&& *final(self) == *old(self)
            },
            old(self).status == BackendStatus::Normal ==> match res {
                Ok(socket) => {
                    &&& call_ensures(connect, (protocol, old(self).address), Some(socket))
                    &&& *final(self) == (Backend {
                        active_connections: (old(self).active_connections + 1) as usize,
                        ..*old(self)
                    })
                },
                Err(e) => {
                    &&& e == ConnectionError::NoBackendAvailable
                    &&& call_ensures(connect, (protocol, old(self).address), None::<S>)
                    &&& old(self).retry_policy.state().backs_off_to(final(self).retry_policy.state())
                    &&& final(self).failures == old(self).failures + 1
                    &&& final(self).status == old(self).status
                    &&& final(self).active_connections == old(self).active_connections
                    &&& old(self).same_backend(final(self))
                },
            },
            old(self).well_formed() ==> final(self).well_formed(),
    {
        if self.status != BackendStatus::Normal {
            return Err(ConnectionError::NoBackendAvailable);
        }
        match connect(protocol, self.address) {
            Some(socket) => {
                self.inc_connections();
                Ok(socket)
            },
            None => {
                self.retry_policy.fail();
                self.failures += 1;
                Err(ConnectionError::NoBackendAvailable)
            },
        }
    }
}

} // verus!
