//! Overlapped (asynchronous) transfers: the polling protocol of one completion
//! record.
//!
//! A completion record is initialised before an overlapped transfer is
//! started. The driver pushes no wake-up: completion is observed by polling the
//! record. Two statuses say that the transfer is still under way; any other
//! status ends it. The record is released exactly once, whichever way the
//! transfer ends; releasing consumes the [`Overlapped`] value.
use vstd::prelude::*;

use crate::error::{error_of, is_transient, D3xxError, STATUS_SUCCESS};

verus! {

/// The outcome of one poll.
#[derive(Copy, Clone, Debug, Eq, PartialEq)]
pub enum Poll<T> {
    /// The operation has ended with the value held.
    Ready(T),
    /// The operation is still under way.
    Pending,
}

/// What a terminal status means at the end of an overlapped transfer.
pub open spec fn completion_result(status: u32, transferred: u32) -> Result<usize, D3xxError> {
    if status == STATUS_SUCCESS {
        Ok(transferred as usize)
    } else {
        Err(error_of(status))
    }
}

/// One completion record of an overlapped transfer.
#[derive(Debug)]
pub struct Overlapped {
    handle: usize,
    ready: bool,
}

impl Overlapped {
    /// The driver handle the record is bound to.
    pub closed spec fn spec_handle(&self) -> usize {
        self.handle
    }

    /// Whether a poll has reported the end of the transfer.
    pub closed spec fn spec_ready(&self) -> bool {
        self.ready
    }

    /// The record, and the poll's outcome, after the driver reported `status`
    /// and `transferred` for a poll.
    pub open spec fn after_poll(&self, status: u32, transferred: u32) -> (Overlapped, Poll<
        Result<usize, D3xxError>,
    >) {
        if is_transient(status) {
            (*self, Poll::Pending)
        } else {
            (self.terminated(), Poll::Ready(completion_result(status, transferred)))
        }
    }

    /// The record once its transfer has ended.
    pub closed spec fn terminated(&self) -> Overlapped {
        Overlapped { ready: true, ..*self }
    }

    /// A record bound to `handle`, given the status with which the driver
    /// initialised it.
    pub fn with_handle(handle: usize, init_status: u32) -> (r: Result<Overlapped, D3xxError>)
        ensures
            init_status == STATUS_SUCCESS <==> r is Ok,
            r matches Ok(o) ==> o.spec_handle() == handle && !o.spec_ready(),
            r matches Err(e) ==> e == error_of(init_status),
    {
        if init_status == STATUS_SUCCESS {
            Ok(Overlapped { handle, ready: false })
        } else {
            Err(D3xxError::from(init_status))
        }
    }

    /// The driver handle the record is bound to.
    pub fn handle(&self) -> (r: usize)
        ensures
            r == self.spec_handle(),
    {
        self.handle
    }

    /// Whether a poll has reported the end of the transfer.
    pub fn is_ready(&self) -> (r: bool)
        ensures
            r == self.spec_ready(),
    {
        self.ready
    }

    /// Take the status of one non-blocking query of the record.
    ///
    /// A transient status leaves the transfer pending: the caller should poll
    /// again. Any other status ends it, with the count on success and the
    /// error otherwise; the record must not be polled after that.
    pub fn poll(&mut self, status: u32, transferred: u32) -> (r: Poll<Result<usize, D3xxError>>)
        requires
            !old(self).spec_ready(),
        ensures
            (*final(self), r) == old(self).after_poll(status, transferred),
            is_transient(status) ==> r is Pending && *final(self) == *old(self),
            !is_transient(status) ==> final(self).spec_ready() && r == Poll::Ready(
                completion_result(status, transferred),
            ),
            final(self).spec_handle() == old(self).spec_handle(),
    {
        if status == 24 || status == 25 {
            Poll::Pending
        } else {
            self.ready = true;
            if status == STATUS_SUCCESS {
                Poll::Ready(Ok(transferred as usize))
            } else {
                Poll::Ready(Err(D3xxError::from(status)))
            }
        }
    }

    /// Release the record, consuming it; the handle returned is the one the
    /// native record is released under.
    pub fn release(self) -> (r: usize)
        ensures
            r == self.spec_handle(),
    {
        self.handle
    }
}

/// The outcomes of successive polls that report `statuses`, each with count
/// `transferred`; polling stops at the first terminal outcome.
pub open spec fn poll_run(o: Overlapped, statuses: Seq<u32>, transferred: u32) -> (Overlapped, Seq<
    Poll<Result<usize, D3xxError>>,
>)
    decreases statuses.len(),
{
    if statuses.len() == 0 || o.spec_ready() {
        (o, Seq::empty())
    } else {
        let (o1, p) = o.after_poll(statuses[0], transferred);
        let (o2, rest) = poll_run(o1, statuses.skip(1), transferred);
        (o2, seq![p] + rest)
    }
}

/// Polls made before the driver signals completion all report `Pending`; the
/// first poll after it reports `Ready(Ok(n))`, exactly once: no poll is made
/// after it, whatever statuses would have followed.
pub proof fn lemma_poll_completes_once(
    o: Overlapped,
    before: Seq<u32>,
    after: Seq<u32>,
    transferred: u32,
)
    requires
        !o.spec_ready(),
        forall|i: int| 0 <= i < before.len() ==> is_transient(#[trigger] before[i]),
    ensures
        ({
            let (o2, outcomes) = poll_run(o, before + seq![STATUS_SUCCESS] + after, transferred);
            &&& outcomes == Seq::new(before.len(), |i: int| Poll::<Result<usize, D3xxError>>::Pending).push(
                Poll::Ready(Ok(transferred as usize)),
            )
            &&& o2.spec_ready()
            &&& o2.spec_handle() == o.spec_handle()
        }),
    decreases before.len(),
{
    let all = before + seq![STATUS_SUCCESS] + after;
    if before.len() == 0 {
        assert(all[0] == STATUS_SUCCESS);
        let o1 = o.terminated();
        assert(poll_run(o1, all.skip(1), transferred).1 == Seq::<Poll<Result<usize, D3xxError>>>::empty());
        assert(Seq::new(0, |i: int| Poll::<Result<usize, D3xxError>>::Pending).push(
            Poll::Ready(Ok(transferred as usize)),
        ) =~= seq![Poll::Ready(Ok(transferred as usize))]);
        assert(seq![Poll::Ready(Ok(transferred as usize))] + Seq::<Poll<Result<usize, D3xxError>>>::empty()
            =~= seq![Poll::Ready(Ok(transferred as usize))]);
    } else {
        let rest = before.skip(1);
        assert(all[0] == before[0]);
        assert(all.skip(1) =~= rest + seq![STATUS_SUCCESS] + after);
        assert forall|i: int| 0 <= i < rest.len() implies is_transient(#[trigger] rest[i]) by {
            assert(rest[i] == before[i + 1]);
        }
        lemma_poll_completes_once(o, rest, after, transferred);
        let tail = poll_run(o, rest + seq![STATUS_SUCCESS] + after, transferred).1;
        assert(seq![Poll::<Result<usize, D3xxError>>::Pending] + tail =~= Seq::new(
            before.len(),
            |i: int| Poll::<Result<usize, D3xxError>>::Pending,
        ).push(Poll::Ready(Ok(transferred as usize))));
    }
}

/// Treat the "pending" status of an overlapped request as acceptance: the
/// request was taken and its completion is observed by polling.
pub fn ignore_io_pending(res: Result<(), D3xxError>) -> (r: Result<(), D3xxError>)
    ensures
        res == Err::<(), D3xxError>(D3xxError::IoPending) ==> r is Ok,
        res != Err::<(), D3xxError>(D3xxError::IoPending) ==> r == res,
{
    match res {
        Err(D3xxError::IoPending) => Ok(()),
        x => x,
    }
}

} // verus!
