use vstd::prelude::*;

use crate::net_error::EdgeHttpError;
use edge_nal::Close;
use edge_nal_embassy::TcpError;
use embedded_io::ErrorKind;

verus! {

/// `edge_nal::Close`: which half of a socket to shut down.
#[verifier::external_type_specification]
pub struct ExClose(edge_nal::Close);

/// Concurrent TCP connections that one stack serves.
pub const NUM_CONNECTIONS: usize = 3;

/// Sockets that the IP stack's resource pool is sized for (DHCP included).
pub const TOTAL_CONNECTIONS: usize = 4;

/// Bytes of buffer per direction per socket.
pub const BUF_SIZE: usize = 1024;

/// The category of an operation on a half that was closed locally.
pub open spec fn closed_kind() -> ErrorKind {
    ErrorKind::NotConnected
}

/// The operations that a socket, or one of its halves, forwards to the backend.
#[derive(Clone, Copy)]
pub enum SockOp {
    Read,
    Readable,
    Write,
    Flush,
    Close(Close),
    Abort,
}

/// What a socket has been told so far: which halves are still open and
/// whether it was aborted.
#[derive(Clone, Copy, PartialEq, Eq, Structural)]
pub struct SockState {
    pub read_open: bool,
    pub write_open: bool,
    pub aborted: bool,
}

pub open spec fn closes_read(c: Close) -> bool {
    c is Read || c is Both
}

pub open spec fn closes_write(c: Close) -> bool {
    c is Write || c is Both
}

/// The error, if any, with which an operation fails before it reaches the
/// backend.
pub open spec fn refusal(s: SockState, op: SockOp) -> Option<ErrorKind> {
    if s.aborted {
        Some(ErrorKind::ConnectionAborted)
    } else {
        match op {
            SockOp::Read | SockOp::Readable => if s.read_open {
                None
            } else {
                Some(closed_kind())
            },
            SockOp::Write | SockOp::Flush => if s.write_open {
                None
            } else {
                Some(closed_kind())
            },
            SockOp::Close(c) => if (closes_read(c) && s.read_open) || (closes_write(c)
                && s.write_open) {
                None
            } else {
                Some(closed_kind())
            },
            SockOp::Abort => if s.read_open || s.write_open {
                None
            } else {
                Some(closed_kind())
            },
        }
    }
}

/// The state after the backend was handed `op`.
pub open spec fn after(s: SockState, op: SockOp) -> SockState {
    match op {
        SockOp::Close(c) => SockState {
            read_open: s.read_open && !closes_read(c),
            write_open: s.write_open && !closes_write(c),
            aborted: s.aborted,
        },
        SockOp::Abort => SockState { read_open: false, write_open: false, aborted: true },
        _ => s,
    }
}

/// Whether the socket still holds a connection slot.
pub open spec fn holds_slot(s: SockState) -> bool {
    !s.aborted && (s.read_open || s.write_open)
}

impl SockState {
    /// A freshly connected socket: both halves open.
    pub fn open() -> (r: Self)
        ensures
            r == (SockState { read_open: true, write_open: true, aborted: false }),
    {
        SockState { read_open: true, write_open: true, aborted: false }
    }

    /// The error with which `op` fails without reaching the backend, or
    /// `None` where it is to be forwarded.
    pub fn check(&self, op: SockOp) -> (r: Option<EdgeHttpError>)
        ensures
            r is None <==> refusal(*self, op) is None,
            refusal(*self, op) is Some ==> r == Some(EdgeHttpError::Shut(refusal(*self, op)->0)),
    {
        if self.aborted {
            return Some(EdgeHttpError::Shut(ErrorKind::ConnectionAborted));
        }
        let open = match op {
            SockOp::Read | SockOp::Readable => self.read_open,
            SockOp::Write | SockOp::Flush => self.write_open,
            SockOp::Close(c) => match c {
                Close::Read => self.read_open,
                Close::Write => self.write_open,
                Close::Both => self.read_open || self.write_open,
            },
            SockOp::Abort => self.read_open || self.write_open,
        };
        if open {
            None
        } else {
            Some(EdgeHttpError::Shut(ErrorKind::NotConnected))
        }
    }

    /// Records that `op` was handed to the backend.
    pub fn record(&mut self, op: SockOp)
        ensures
            *final(self) == after(*old(self), op),
    {
        match op {
            SockOp::Close(c) => {
                match c {
                    Close::Read => {
                        self.read_open = false;
                    },
                    Close::Write => {
                        self.write_open = false;
                    },
                    Close::Both => {
                        self.read_open = false;
                        self.write_open = false;
                    },
                }
            },
            SockOp::Abort => {
                self.read_open = false;
                self.write_open = false;
                self.aborted = true;
            },
            _ => {},
        }
    }

    /// Whether the socket still holds one of the stack's connection slots.
    pub fn holds_slot(&self) -> (r: bool)
        ensures
            r == holds_slot(*self),
    {
        !self.aborted && (self.read_open || self.write_open)
    }
}

/// Counts the sockets of one stack that hold a connection slot.
pub struct ConnectionBudget {
    outstanding: usize,
}

impl ConnectionBudget {
    pub closed spec fn outstanding(&self) -> nat {
        self.outstanding as nat
    }

    pub open spec fn wf(&self) -> bool {
        self.outstanding() <= NUM_CONNECTIONS
    }

    pub fn new() -> (r: Self)
        ensures
            r.wf(),
            r.outstanding() == 0,
    {
        ConnectionBudget { outstanding: 0 }
    }

    pub fn outstanding_count(&self) -> (r: usize)
        ensures
            r == self.outstanding(),
    {
        self.outstanding
    }

    /// Takes a slot for a new connection; fails with the backend's
    /// out-of-buffers error where all of them are taken.
    pub fn take_slot(&mut self) -> (r: Result<(), EdgeHttpError>)
        requires
            old(self).wf(),
        ensures
            final(self).wf(),
            final(self).outstanding() == budget_step(old(self).outstanding(), BudgetEvent::Connect),
            old(self).outstanding() < NUM_CONNECTIONS ==> r is Ok && final(self).outstanding()
                == old(self).outstanding() + 1,
            old(self).outstanding() >= NUM_CONNECTIONS ==> r == Err::<(), EdgeHttpError>(
                EdgeHttpError::Tcp(TcpError::NoBuffers),
            ) && final(self).outstanding() == old(self).outstanding(),
    {
        if self.outstanding < NUM_CONNECTIONS {
            self.outstanding = self.outstanding + 1;
            Ok(())
        } else {
            Err(EdgeHttpError::Tcp(TcpError::NoBuffers))
        }
    }

    /// Gives back the slot of a socket that was closed on both halves,
    /// aborted, or dropped.
    pub fn release(&mut self)
        requires
            old(self).wf(),
        ensures
            final(self).wf(),
            final(self).outstanding() == budget_step(old(self).outstanding(), BudgetEvent::Release),
    {
        if self.outstanding > 0 {
            self.outstanding = self.outstanding - 1;
        }
    }
}

impl ConnectionBudget {
    /// Gives back the socket's slot where an operation took the socket from
    /// holding one (a half open, not aborted) to holding none.
    pub fn settle(&mut self, before: SockState, after: SockState)
        requires
            old(self).wf(),
        ensures
            final(self).wf(),
            holds_slot(before) && !holds_slot(after) ==> final(self).outstanding() == budget_step(
                old(self).outstanding(),
                BudgetEvent::Release,
            ),
            !(holds_slot(before) && !holds_slot(after)) ==> final(self).outstanding() == old(
                self,
            ).outstanding(),
    {
        if before.holds_slot() && !after.holds_slot() {
            self.release();
        }
    }
}

/// One step of a program that uses a stack's sockets.
pub enum BudgetEvent {
    Connect,
    Release,
}

/// The count after one event.
pub open spec fn budget_step(n: nat, ev: BudgetEvent) -> nat {
    match ev {
        BudgetEvent::Connect => if n < NUM_CONNECTIONS {
            n + 1
        } else {
            n
        },
        BudgetEvent::Release => if n > 0 {
            (n - 1) as nat
        } else {
            0
        },
    }
}

/// The count after a sequence of events, from an empty stack.
pub open spec fn budget_after(evs: Seq<BudgetEvent>) -> nat
    decreases evs.len(),
{
    if evs.len() == 0 {
        0
    } else {
        budget_step(budget_after(evs.drop_last()), evs.last())
    }
}

/// For any sequence of connects and closes, the number of outstanding
/// sockets never exceeds the connection budget.
pub proof fn lemma_budget_bounded(evs: Seq<BudgetEvent>)
    ensures
        forall|i: int| 0 <= i <= evs.len() ==> #[trigger] budget_after(evs.take(i))
            <= NUM_CONNECTIONS,
    decreases evs.len(),
{
    if evs.len() > 0 {
        let pre = evs.drop_last();
        lemma_budget_bounded(pre);
        assert forall|i: int| 0 <= i <= evs.len() implies #[trigger] budget_after(evs.take(i))
            <= NUM_CONNECTIONS by {
            if i < evs.len() {
                assert(evs.take(i) =~= pre.take(i));
            } else {
                assert(evs.take(i) =~= evs);
                assert(pre.take(pre.len() as int) =~= pre);
                assert(budget_after(pre.take(pre.len() as int)) <= NUM_CONNECTIONS);
                assert(budget_after(evs) == budget_step(budget_after(pre), evs.last()));
            }
        }
    }
}

} // verus!
