//! The directions in which a session currently needs its two sockets served.

use vstd::prelude::*;

verus! {

/// Interest of a session in its front and back sockets: every combination of
/// no interest, read, write and read-write on each side.
#[derive(Debug, PartialEq, Eq, Structural)]
pub enum RequiredEvents {
    FrontReadBackNone,
    FrontWriteBackNone,
    FrontReadWriteBackNone,
    FrontNoneBackNone,
    FrontReadBackRead,
    FrontWriteBackRead,
    FrontReadWriteBackRead,
    FrontNoneBackRead,
    FrontReadBackWrite,
    FrontWriteBackWrite,
    FrontReadWriteBackWrite,
    FrontNoneBackWrite,
    FrontReadBackReadWrite,
    FrontWriteBackReadWrite,
    FrontReadWriteBackReadWrite,
    FrontNoneBackReadWrite,
}

/// The four independent facets of a readiness state.
pub struct Facets {
    pub front_read: bool,
    pub front_write: bool,
    pub back_read: bool,
    pub back_write: bool,
}

impl RequiredEvents {
    /// The truth table: one line per state, in the order front read, front
    /// write, back read, back write.
    pub open spec fn facets(self) -> Facets {
        match self {
            RequiredEvents::FrontNoneBackNone => Self::row(false, false, false, false),
            RequiredEvents::FrontReadBackNone => Self::row(true, false, false, false),
            RequiredEvents::FrontWriteBackNone => Self::row(false, true, false, false),
            RequiredEvents::FrontReadWriteBackNone => Self::row(true, true, false, false),
            RequiredEvents::FrontNoneBackRead => Self::row(false, false, true, false),
            RequiredEvents::FrontReadBackRead => Self::row(true, false, true, false),
            RequiredEvents::FrontWriteBackRead => Self::row(false, true, true, false),
            RequiredEvents::FrontReadWriteBackRead => Self::row(true, true, true, false),
            RequiredEvents::FrontNoneBackWrite => Self::row(false, false, false, true),
            RequiredEvents::FrontReadBackWrite => Self::row(true, false, false, true),
            RequiredEvents::FrontWriteBackWrite => Self::row(false, true, false, true),
            RequiredEvents::FrontReadWriteBackWrite => Self::row(true, true, false, true),
            RequiredEvents::FrontNoneBackReadWrite => Self::row(false, false, true, true),
            RequiredEvents::FrontReadBackReadWrite => Self::row(true, false, true, true),
            RequiredEvents::FrontWriteBackReadWrite => Self::row(false, true, true, true),
            RequiredEvents::FrontReadWriteBackReadWrite => Self::row(true, true, true, true),
        }
    }

    /// A line of the truth table.
    pub open spec fn row(front_read: bool, front_write: bool, back_read: bool, back_write: bool) -> Facets {
        Facets { front_read, front_write, back_read, back_write }
    }

    /// Whether the front socket must be polled for reading.
    pub fn front_readable(&self) -> (res: bool)
        ensures
            res == self.facets().front_read,
    {
        match *self {
            RequiredEvents::FrontReadBackNone
            | RequiredEvents::FrontReadWriteBackNone
            | RequiredEvents::FrontReadBackRead
            | RequiredEvents::FrontReadWriteBackRead
            | RequiredEvents::FrontReadBackWrite
            | RequiredEvents::FrontReadWriteBackWrite
            | RequiredEvents::FrontReadBackReadWrite
            | RequiredEvents::FrontReadWriteBackReadWrite => true,
            _ => false,
        }
    }

    /// Whether the front socket must be polled for writing.
    pub fn front_writable(&self) -> (res: bool)
        ensures
            res == self.facets().front_write,
    {
        match *self {
            RequiredEvents::FrontWriteBackNone
            | RequiredEvents::FrontReadWriteBackNone
            | RequiredEvents::FrontWriteBackRead
            | RequiredEvents::FrontReadWriteBackRead
            | RequiredEvents::FrontWriteBackWrite
            | RequiredEvents::FrontReadWriteBackWrite
            | RequiredEvents::FrontWriteBackReadWrite
            | RequiredEvents::FrontReadWriteBackReadWrite => true,
            _ => false,
        }
    }

    /// Whether the back socket must be polled for reading.
    pub fn back_readable(&self) -> (res: bool)
        ensures
            res == self.facets().back_read,
    {
        match *self {
            RequiredEvents::FrontReadBackRead
            | RequiredEvents::FrontWriteBackRead
            | RequiredEvents::FrontReadWriteBackRead
            | RequiredEvents::FrontNoneBackRead
            | RequiredEvents::FrontReadBackReadWrite
            | RequiredEvents::FrontWriteBackReadWrite
            | RequiredEvents::FrontReadWriteBackReadWrite
            | RequiredEvents::FrontNoneBackReadWrite => true,
            _ => false,
        }
    }

    /// Whether the back socket must be polled for writing.
    pub fn back_writable(&self) -> (res: bool)
        ensures
            res == self.facets().back_write,
    {
        match *self {
            RequiredEvents::FrontReadBackWrite
            | RequiredEvents::FrontWriteBackWrite
            | RequiredEvents::FrontReadWriteBackWrite
            | RequiredEvents::FrontNoneBackWrite
            | RequiredEvents::FrontReadBackReadWrite
            | RequiredEvents::FrontWriteBackReadWrite
            | RequiredEvents::FrontReadWriteBackReadWrite
            | RequiredEvents::FrontNoneBackReadWrite => true,
            _ => false,
        }
    }

    /// Two states with the same four facets are the same state.
    pub proof fn lemma_facets_distinguish(a: RequiredEvents, b: RequiredEvents)
        requires
            a.facets() == b.facets(),
        ensures
            a == b,
    {
    }

    /// Every combination of the four facets is the table line of some state.
    pub proof fn lemma_facets_cover(front_read: bool, front_write: bool, back_read: bool, back_write: bool) -> (state: RequiredEvents)
        ensures
            state.facets() == Self::row(front_read, front_write, back_read, back_write),
    {
        if front_read {
            if front_write {
                if back_read {
                    if back_write { RequiredEvents::FrontReadWriteBackReadWrite } else { RequiredEvents::FrontReadWriteBackRead }
                } else {
                    if back_write { RequiredEvents::FrontReadWriteBackWrite } else { RequiredEvents::FrontReadWriteBackNone }
                }
            } else {
                if back_read {
                    if back_write { RequiredEvents::FrontReadBackReadWrite } else { RequiredEvents::FrontReadBackRead }
                } else {
                    if back_write { RequiredEvents::FrontReadBackWrite } else { RequiredEvents::FrontReadBackNone }
                }
            }
        } else {
            if front_write {
                if back_read {
                    if back_write { RequiredEvents::FrontWriteBackReadWrite } else { RequiredEvents::FrontWriteBackRead }
                } else {
                    if back_write { RequiredEvents::FrontWriteBackWrite } else { RequiredEvents::FrontWriteBackNone }
                }
            } else {
                if back_read {
                    if back_write { RequiredEvents::FrontNoneBackReadWrite } else { RequiredEvents::FrontNoneBackRead }
                } else {
                    if back_write { RequiredEvents::FrontNoneBackWrite } else { RequiredEvents::FrontNoneBackNone }
                }
            }
        }
    }
}

} // verus!
