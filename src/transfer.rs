//! The protocol of one pipe transfer against the driver.
//!
//! A transfer issues one read or write request. When the driver reports a
//! failure, the pipe must be aborted before the error goes back to the caller,
//! so that the driver returns to a known state; the outcome of the abort itself
//! is discarded. [`Transfer`] holds that protocol as a state machine: it names
//! the request to issue, takes the status the driver reported for it, and
//! names the next request, until the outcome is known.
use vstd::prelude::*;

use crate::error::{error_of, D3xxError, STATUS_SUCCESS};
use crate::pipe::{pipe_is_in, pipe_is_out, Pipe, PipeIo};

verus! {

/// Direction of a transfer.
#[derive(Copy, Clone, Debug, Eq, PartialEq, Hash, Structural)]
pub enum TransferKind {
    /// Read from an input pipe.
    Read,
    /// Write to an output pipe.
    Write,
}

/// A request to the driver.
#[derive(Copy, Clone, Debug, Eq, PartialEq, Structural)]
pub enum Request {
    /// Transfer `len` bytes on `pipe`; with `overlapped`, only start it.
    Transfer { pipe: Pipe, kind: TransferKind, len: u32, overlapped: bool },
    /// Abort all pending transfers on `pipe`.
    Abort { pipe: Pipe },
}

/// Where a transfer stands.
#[derive(Copy, Clone, Debug, Eq, PartialEq, Structural)]
pub enum Phase {
    /// The transfer request has not been issued.
    Ready,
    /// The transfer request has been issued; its status is awaited.
    InFlight,
    /// The transfer failed with the error held; the abort's status is awaited.
    Aborting(D3xxError),
    /// The transfer succeeded with the count held.
    Completed(usize),
    /// The transfer failed with the error held, and the pipe was aborted.
    Failed(D3xxError),
}

/// Direction of the pipe agrees with the direction of the transfer.
pub open spec fn direction_matches(pipe: Pipe, kind: TransferKind) -> bool {
    match kind {
        TransferKind::Read => pipe_is_in(pipe),
        TransferKind::Write => pipe_is_out(pipe),
    }
}

/// The driver accepted the transfer request: it succeeded, or, for an
/// overlapped transfer, it reported that the transfer is under way.
pub open spec fn accepted(status: u32, overlapped: bool) -> bool {
    status == STATUS_SUCCESS || (overlapped && status == 24)
}

/// One transfer on one pipe.
pub struct Transfer {
    pipe: Pipe,
    kind: TransferKind,
    len: u32,
    overlapped: bool,
    phase: Phase,
    issued: Ghost<Seq<Request>>,
}

impl Transfer {
    /// The pipe transferred on.
    pub closed spec fn spec_pipe(&self) -> Pipe {
        self.pipe
    }

    /// The direction of the transfer.
    pub closed spec fn spec_kind(&self) -> TransferKind {
        self.kind
    }

    /// The number of bytes asked for.
    pub closed spec fn spec_len(&self) -> u32 {
        self.len
    }

    /// Whether the transfer is only started (overlapped) or carried out.
    pub closed spec fn spec_overlapped(&self) -> bool {
        self.overlapped
    }

    /// Where the transfer stands.
    pub closed spec fn spec_phase(&self) -> Phase {
        self.phase
    }

    /// The requests issued so far, oldest first.
    pub closed spec fn issued(&self) -> Seq<Request> {
        self.issued@
    }

    /// The transfer request itself.
    pub open spec fn transfer_request(&self) -> Request {
        Request::Transfer {
            pipe: self.spec_pipe(),
            kind: self.spec_kind(),
            len: self.spec_len(),
            overlapped: self.spec_overlapped(),
        }
    }

    /// The same transfer in phase `phase`, having issued `issued`.
    pub closed spec fn with_phase(&self, phase: Phase, issued: Seq<Request>) -> Transfer {
        Transfer { phase, issued: Ghost(issued), ..*self }
    }

    /// The transfer after its request is issued.
    pub open spec fn after_start(&self) -> Transfer {
        self.with_phase(Phase::InFlight, self.issued().push(self.transfer_request()))
    }

    /// The transfer, and the request to issue next, after the driver reported
    /// `status` and `transferred` for the request last issued.
    pub open spec fn after_status(&self, status: u32, transferred: u32) -> (Transfer, Option<
        Request,
    >) {
        match self.spec_phase() {
            Phase::InFlight => if accepted(status, self.spec_overlapped()) {
                (self.with_phase(Phase::Completed(transferred as usize), self.issued()), None)
            } else {
                let abort = Request::Abort { pipe: self.spec_pipe() };
                (
                    self.with_phase(Phase::Aborting(error_of(status)), self.issued().push(abort)),
                    Some(abort),
                )
            },
            Phase::Aborting(e) => (self.with_phase(Phase::Failed(e), self.issued()), None),
            _ => (*self, None),
        }
    }

    /// A transfer of `len` bytes on `pipe`, not yet issued.
    ///
    /// The pipe's direction must match the transfer's, and the length must fit
    /// the driver's 32-bit length.
    pub fn new(pipe: Pipe, kind: TransferKind, len: usize, overlapped: bool) -> (t: Transfer)
        requires
            direction_matches(pipe, kind),
            len <= u32::MAX,
        ensures
            t.spec_pipe() == pipe,
            t.spec_kind() == kind,
            t.spec_len() == len,
            t.spec_overlapped() == overlapped,
            t.spec_phase() == Phase::Ready,
            t.issued() == Seq::<Request>::empty(),
    {
        Transfer { pipe, kind, len: len as u32, overlapped, phase: Phase::Ready, issued: Ghost(Seq::empty()) }
    }

    /// The pipe transferred on.
    pub fn pipe(&self) -> (r: Pipe)
        ensures
            r == self.spec_pipe(),
    {
        self.pipe
    }

    /// Where the transfer stands.
    pub fn phase(&self) -> (r: Phase)
        ensures
            r == self.spec_phase(),
    {
        self.phase
    }

    /// Issue the transfer request: the caller hands it to the driver.
    pub fn start(&mut self) -> (r: Request)
        requires
            old(self).spec_phase() == Phase::Ready,
        ensures
            r == old(self).transfer_request(),
            *final(self) == old(self).after_start(),
            final(self).spec_phase() == Phase::InFlight,
            final(self).issued() == old(self).issued().push(r),
            final(self).spec_pipe() == old(self).spec_pipe(),
            final(self).spec_kind() == old(self).spec_kind(),
            final(self).spec_len() == old(self).spec_len(),
            final(self).spec_overlapped() == old(self).spec_overlapped(),
    {
        let r = Request::Transfer {
            pipe: self.pipe,
            kind: self.kind,
            len: self.len,
            overlapped: self.overlapped,
        };
        self.phase = Phase::InFlight;
        self.issued = Ghost(self.issued@.push(r));
        r
    }

    /// Take the status the driver reported for the request last issued, and
    /// name the next request, if any.
    ///
    /// An accepted transfer ends with the count reported. A failed one asks for
    /// an abort of the pipe; whatever the abort reports, the transfer then ends
    /// with the error of the failed transfer.
    pub fn on_status(&mut self, status: u32, transferred: u32) -> (r: Option<Request>)
        requires
            old(self).spec_phase() is InFlight || old(self).spec_phase() is Aborting,
        ensures
            (*final(self), r) == old(self).after_status(status, transferred),
            old(self).spec_phase() is InFlight && accepted(status, old(self).spec_overlapped())
                ==> r is None && final(self).spec_phase() == Phase::Completed(transferred as usize),
            old(self).spec_phase() is InFlight && !accepted(status, old(self).spec_overlapped())
                ==> r == Some(Request::Abort { pipe: old(self).spec_pipe() })
                && final(self).spec_phase() == Phase::Aborting(error_of(status)),
            old(self).spec_phase() matches Phase::Aborting(e)
                ==> r is None && final(self).spec_phase() == Phase::Failed(e),
            final(self).spec_pipe() == old(self).spec_pipe(),
            final(self).spec_kind() == old(self).spec_kind(),
            final(self).spec_len() == old(self).spec_len(),
            final(self).spec_overlapped() == old(self).spec_overlapped(),
    {
        match self.phase {
            Phase::InFlight => {
                if status == STATUS_SUCCESS || (self.overlapped && status == 24) {
                    self.phase = Phase::Completed(transferred as usize);
                    None
                } else {
                    let abort = Request::Abort { pipe: self.pipe };
                    self.phase = Phase::Aborting(D3xxError::from(status));
                    self.issued = Ghost(self.issued@.push(abort));
                    Some(abort)
                }
            },
            Phase::Aborting(e) => {
                self.phase = Phase::Failed(e);
                None
            },
            _ => None,
        }
    }

    /// The outcome, once known.
    pub fn outcome(&self) -> (r: Option<Result<usize, D3xxError>>)
        ensures
            self.spec_phase() matches Phase::Completed(n) ==> r == Some(Ok::<usize, D3xxError>(n)),
            self.spec_phase() matches Phase::Failed(e) ==> r == Some(Err::<usize, D3xxError>(e)),
            !(self.spec_phase() is Completed || self.spec_phase() is Failed) ==> r is None,
    {
        match self.phase {
            Phase::Completed(n) => Some(Ok(n)),
            Phase::Failed(e) => Some(Err(e)),
            _ => None,
        }
    }
}

/// A transfer that the driver accepts ends with the count it reported and
/// issues no abort.
pub proof fn lemma_accepted_transfer_issues_no_abort(t: Transfer, status: u32, transferred: u32)
    requires
        t.spec_phase() == Phase::Ready,
        t.issued() == Seq::<Request>::empty(),
        accepted(status, t.spec_overlapped()),
    ensures
        ({
            let (t2, next) = t.after_start().after_status(status, transferred);
            &&& next is None
            &&& t2.spec_phase() == Phase::Completed(transferred as usize)
            &&& t2.issued() == seq![t.transfer_request()]
        }),
{
    assert(t.issued().push(t.transfer_request()) =~= seq![t.transfer_request()]);
}

/// A failed transfer issues exactly one abort, of its own pipe, before its
/// error is known; whatever the abort reports, the outcome is the error of the
/// failed transfer and nothing more is issued.
pub proof fn lemma_failed_transfer_aborts_once(
    t: Transfer,
    status: u32,
    transferred: u32,
    abort_status: u32,
    abort_transferred: u32,
)
    requires
        t.spec_phase() == Phase::Ready,
        t.issued() == Seq::<Request>::empty(),
        !accepted(status, t.spec_overlapped()),
    ensures
        ({
            let t1 = t.after_start();
            let (t2, first) = t1.after_status(status, transferred);
            let (t3, second) = t2.after_status(abort_status, abort_transferred);
            &&& first == Some(Request::Abort { pipe: t.spec_pipe() })
            &&& second is None
            &&& t3.spec_phase() == Phase::Failed(error_of(status))
            &&& t3.issued() == seq![t.transfer_request(), Request::Abort { pipe: t.spec_pipe() }]
        }),
{
    let abort = Request::Abort { pipe: t.spec_pipe() };
    assert(t.issued().push(t.transfer_request()).push(abort) =~= seq![
        t.transfer_request(),
        abort,
    ]);
}

impl PipeIo {
    /// A blocking write of `len` bytes to this pipe.
    pub fn write_transfer(&self, len: usize) -> (t: Transfer)
        requires
            pipe_is_out(self.spec_id()),
            len <= u32::MAX,
        ensures
            t.spec_pipe() == self.spec_id(),
            t.spec_kind() == TransferKind::Write,
            t.spec_len() == len,
            !t.spec_overlapped(),
            t.spec_phase() == Phase::Ready,
            t.issued() == Seq::<Request>::empty(),
    {
        Transfer::new(self.id(), TransferKind::Write, len, false)
    }

    /// A blocking read of up to `len` bytes from this pipe.
    pub fn read_transfer(&self, len: usize) -> (t: Transfer)
        requires
            pipe_is_in(self.spec_id()),
            len <= u32::MAX,
        ensures
            t.spec_pipe() == self.spec_id(),
            t.spec_kind() == TransferKind::Read,
            t.spec_len() == len,
            !t.spec_overlapped(),
            t.spec_phase() == Phase::Ready,
            t.issued() == Seq::<Request>::empty(),
    {
        Transfer::new(self.id(), TransferKind::Read, len, false)
    }

    /// The start of an overlapped write of `len` bytes to this pipe.
    pub fn write_async_transfer(&self, len: usize) -> (t: Transfer)
        requires
            pipe_is_out(self.spec_id()),
            len <= u32::MAX,
        ensures
            t.spec_pipe() == self.spec_id(),
            t.spec_kind() == TransferKind::Write,
            t.spec_len() == len,
            t.spec_overlapped(),
            t.spec_phase() == Phase::Ready,
            t.issued() == Seq::<Request>::empty(),
    {
        Transfer::new(self.id(), TransferKind::Write, len, true)
    }

    /// The start of an overlapped read of up to `len` bytes from this pipe.
    pub fn read_async_transfer(&self, len: usize) -> (t: Transfer)
        requires
            pipe_is_in(self.spec_id()),
            len <= u32::MAX,
        ensures
            t.spec_pipe() == self.spec_id(),
            t.spec_kind() == TransferKind::Read,
            t.spec_len() == len,
            t.spec_overlapped(),
            t.spec_phase() == Phase::Ready,
            t.issued() == Seq::<Request>::empty(),
    {
        Transfer::new(self.id(), TransferKind::Read, len, true)
    }
}

} // verus!
