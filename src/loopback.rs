//! An in-memory device that serves driver requests, for exercising code built
//! on [`Transfer`] without hardware.
//!
//! Bytes written to output pipe `k` are queued for input pipe `k`. A failure
//! can be armed for the next transfer on a chosen pipe, and every abort the
//! device receives is logged.
use vstd::prelude::*;

use crate::error::{error_of, D3xxError, STATUS_SUCCESS};
use crate::pipe::{pipe_is_in, pipe_is_out, pipe_number, Pipe};
use crate::transfer::{Phase, Request, Transfer, TransferKind};

verus! {

/// What a loopback device holds: one queue per pipe number, the failure
/// armed, if any, and the pipes aborted so far, oldest first.
pub struct LoopbackState {
    /// Bytes queued for input pipe `k`, at index `k`.
    pub queues: Seq<Seq<u8>>,
    /// The pipe whose next transfer fails, and the status it fails with.
    pub fault: Option<(Pipe, u32)>,
    /// The pipes aborted, oldest first.
    pub aborts: Seq<Pipe>,
}

impl LoopbackState {
    /// Four queues, and an armed failure that is a failure.
    pub open spec fn wf(self) -> bool {
        &&& self.queues.len() == 4
        &&& self.fault matches Some((_, code)) ==> code != STATUS_SUCCESS
    }

    /// Whether the next transfer on `pipe` fails, and with which status.
    pub open spec fn fault_on(self, pipe: Pipe) -> Option<u32> {
        match self.fault {
            Some((p, code)) => if p == pipe {
                Some(code)
            } else {
                None
            },
            None => None,
        }
    }

    /// The state after the failed transfer on `pipe`: the failure is spent and
    /// the pipe is aborted.
    pub open spec fn after_failure(self, pipe: Pipe) -> LoopbackState {
        LoopbackState { fault: None, aborts: self.aborts.push(pipe), ..self }
    }

    /// Writing `data` to output pipe `pipe`: the state after it, and its result.
    pub open spec fn write_spec(self, pipe: Pipe, data: Seq<u8>) -> (LoopbackState, Result<
        usize,
        D3xxError,
    >) {
        match self.fault_on(pipe) {
            Some(code) => (self.after_failure(pipe), Err(error_of(code))),
            None => {
                let k = pipe_number(pipe) as int;
                (
                    LoopbackState { queues: self.queues.update(k, self.queues[k] + data), ..self },
                    Ok(data.len() as usize),
                )
            },
        }
    }

    /// Reading up to `len` bytes from input pipe `pipe`: the state after it,
    /// and its result.
    pub open spec fn read_spec(self, pipe: Pipe, len: nat) -> (LoopbackState, Result<
        Seq<u8>,
        D3xxError,
    >) {
        match self.fault_on(pipe) {
            Some(code) => (self.after_failure(pipe), Err(error_of(code))),
            None => {
                let k = pipe_number(pipe) as int;
                let q = self.queues[k];
                let n = if len <= q.len() {
                    len as int
                } else {
                    q.len() as int
                };
                (
                    LoopbackState { queues: self.queues.update(k, q.skip(n)), ..self },
                    Ok(q.take(n)),
                )
            },
        }
    }
}

/// An in-memory device whose output pipes feed its input pipes.
pub struct Loopback {
    queue0: Vec<u8>,
    queue1: Vec<u8>,
    queue2: Vec<u8>,
    queue3: Vec<u8>,
    fault: Option<(Pipe, u32)>,
    aborts: Vec<Pipe>,
}

impl View for Loopback {
    type V = LoopbackState;

    closed spec fn view(&self) -> LoopbackState {
        LoopbackState {
            queues: seq![self.queue0@, self.queue1@, self.queue2@, self.queue3@],
            fault: self.fault,
            aborts: self.aborts@,
        }
    }
}

impl Loopback {
    /// Whether the device's state is well formed.
    pub closed spec fn wf(&self) -> bool {
        self@.wf()
    }

    /// A device with empty queues, nothing armed and nothing aborted.
    pub fn new() -> (r: Loopback)
        ensures
            r.wf(),
            r@.queues == seq![Seq::<u8>::empty(), Seq::<u8>::empty(), Seq::<u8>::empty(), Seq::<u8>::empty()],
            r@.fault is None,
            r@.aborts == Seq::<Pipe>::empty(),
    {
        Loopback {
            queue0: Vec::new(),
            queue1: Vec::new(),
            queue2: Vec::new(),
            queue3: Vec::new(),
            fault: None,
            aborts: Vec::new(),
        }
    }

    /// Make the next transfer on `pipe` fail with `status`.
    pub fn fail_next(&mut self, pipe: Pipe, status: u32)
        requires
            old(self).wf(),
            status != STATUS_SUCCESS,
        ensures
            final(self).wf(),
            final(self)@ == (LoopbackState { fault: Some((pipe, status)), ..old(self)@ }),
    {
        self.fault = Some((pipe, status));
    }

    /// How many aborts of `pipe` the device has received.
    pub fn abort_count(&self, pipe: Pipe) -> (r: usize)
        ensures
            r == self@.aborts.filter(|p: Pipe| p == pipe).len(),
    {
        let mut count: usize = 0;
        let mut i: usize = 0;
        while i < self.aborts.len()
            invariant
                i <= self.aborts.len(),
                count == self@.aborts.take(i as int).filter(|p: Pipe| p == pipe).len(),
                count <= i,
            decreases self.aborts.len() - i,
        {
            proof {
                assert(self@.aborts.take(i as int + 1) =~= self@.aborts.take(i as int).push(
                    self@.aborts[i as int],
                ));
                self@.aborts.take(i as int).lemma_filter_push(self@.aborts[i as int], |p: Pipe| p == pipe);
            }
            if self.aborts[i] == pipe {
                count = count + 1;
            }
            i = i + 1;
        }
        proof {
            assert(self@.aborts.take(i as int) =~= self@.aborts);
        }
        count
    }

    /// How many bytes are queued for input pipe `pipe`.
    pub fn queued(&self, pipe: Pipe) -> (r: usize)
        ensures
            r == self@.queues[pipe_number(pipe) as int].len(),
    {
        match pipe.number() {
            0 => self.queue0.len(),
            1 => self.queue1.len(),
            2 => self.queue2.len(),
            _ => self.queue3.len(),
        }
    }

    /// Take the armed failure for a transfer on `pipe`, if it is armed for it;
    /// the pipe's abort is expected to follow.
    fn take_fault(&mut self, pipe: Pipe) -> (r: Option<u32>)
        requires
            old(self).wf(),
        ensures
            r == old(self)@.fault_on(pipe),
            r is Some ==> final(self)@ == (LoopbackState { fault: None, ..old(self)@ }),
            r is None ==> final(self)@ == old(self)@,
            final(self).wf(),
            r matches Some(code) ==> code != STATUS_SUCCESS,
    {
        match self.fault {
            Some((p, code)) => {
                if p == pipe {
                    self.fault = None;
                    Some(code)
                } else {
                    None
                }
            },
            None => None,
        }
    }

    /// Append `data[..len]` to queue `k`.
    fn enqueue(&mut self, k: u8, data: &Vec<u8>, len: usize)
        requires
            old(self).wf(),
            k < 4,
            len <= data.len(),
        ensures
            final(self).wf(),
            final(self)@ == (LoopbackState {
                queues: old(self)@.queues.update(k as int, old(self)@.queues[k as int] + data@.take(len as int)),
                ..old(self)@
            }),
    {
        let mut i: usize = 0;
        proof {
            assert(old(self)@.queues[k as int] + data@.take(0) =~= old(self)@.queues[k as int]);
            assert(old(self)@.queues.update(k as int, old(self)@.queues[k as int]) =~= old(self)@.queues);
        }
        while i < len
            invariant
                i <= len <= data.len(),
                k < 4,
                self.wf(),
                self@ == (LoopbackState {
                    queues: old(self)@.queues.update(k as int, old(self)@.queues[k as int] + data@.take(i as int)),
                    ..old(self)@
                }),
            decreases len - i,
        {
            let b = data[i];
            match k {
                0 => self.queue0.push(b),
                1 => self.queue1.push(b),
                2 => self.queue2.push(b),
                _ => self.queue3.push(b),
            }
            proof {
                assert(old(self)@.queues[k as int] + data@.take(i as int + 1) =~= (old(self)@.queues[
                    k as int] + data@.take(i as int)).push(b));
                assert(self@.queues =~= old(self)@.queues.update(k as int, old(self)@.queues[k as int] + data@.take(i as int + 1)));
            }
            i = i + 1;
        }
    }

    /// Move up to `len` bytes from the front of queue `k` into `buf`, returning
    /// how many were moved.
    fn dequeue(&mut self, k: u8, buf: &mut Vec<u8>, len: usize) -> (n: usize)
        requires
            old(self).wf(),
            k < 4,
            len <= old(buf).len(),
        ensures
            final(self).wf(),
            n == if len <= old(self)@.queues[k as int].len() { len as int } else { old(self)@.queues[k as int].len() as int },
            final(self)@ == (LoopbackState {
                queues: old(self)@.queues.update(k as int, old(self)@.queues[k as int].skip(n as int)),
                ..old(self)@
            }),
            final(buf).len() == old(buf).len(),
            final(buf)@.take(n as int) == old(self)@.queues[k as int].take(n as int),
    {
        let q = match k {
            0 => &self.queue0,
            1 => &self.queue1,
            2 => &self.queue2,
            _ => &self.queue3,
        };
        let n: usize = if len <= q.len() { len } else { q.len() };
        let mut rest: Vec<u8> = Vec::new();
        let mut i: usize = 0;
        while i < q.len()
            invariant
                n <= q.len(),
                n <= len <= buf.len(),
                buf.len() == old(buf).len(),
                i <= q.len(),
                forall|j: int| 0 <= j < i && j < n ==> buf@[j] == q@[j],
                i <= n ==> rest@ == Seq::<u8>::empty(),
                i > n ==> rest@ == q@.subrange(n as int, i as int),
            decreases q.len() - i,
        {
            if i < n {
                buf[i] = q[i];
            } else {
                rest.push(q[i]);
                proof {
                    assert(q@.subrange(n as int, i as int + 1) =~= q@.subrange(n as int, i as int).push(q@[i as int]));
                }
            }
            i = i + 1;
        }
        proof {
            assert(buf@.take(n as int) =~= q@.take(n as int));
            assert(rest@ =~= q@.skip(n as int));
        }
        match k {
            0 => self.queue0 = rest,
            1 => self.queue1 = rest,
            2 => self.queue2 = rest,
            _ => self.queue3 = rest,
        }
        proof {
            assert(self@.queues =~= old(self)@.queues.update(k as int, old(self)@.queues[k as int].skip(n as int)));
        }
        n
    }

    /// Serve one request as the driver would, returning the status and the
    /// count transferred. A transfer uses `buf`: a write sends its first `len`
    /// bytes, a read fills its front.
    pub fn serve(&mut self, req: Request, buf: &mut Vec<u8>) -> (r: (u32, u32))
        requires
            old(self).wf(),
            req matches Request::Transfer { len, .. } ==> len <= old(buf).len(),
        ensures
            final(self).wf(),
            final(buf).len() == old(buf).len(),
            match req {
                Request::Abort { pipe } => r == (STATUS_SUCCESS, 0u32) && final(self)@ == (
                LoopbackState { aborts: old(self)@.aborts.push(pipe), ..old(self)@ }),
                Request::Transfer { pipe, kind, len, .. } => match old(self)@.fault_on(pipe) {
                    Some(code) => r == (code, 0u32) && final(self)@ == (LoopbackState {
                        fault: None,
                        ..old(self)@
                    }),
                    None => {
                        let k = pipe_number(pipe) as int;
                        let q = old(self)@.queues[k];
                        let n = if len <= q.len() { len as int } else { q.len() as int };
                        match kind {
                            TransferKind::Write => r == (STATUS_SUCCESS, len) && final(self)@ == (
                            LoopbackState {
                                queues: old(self)@.queues.update(k, q + old(buf)@.take(len as int)),
                                ..old(self)@
                            }) && final(buf)@ == old(buf)@,
                            TransferKind::Read => {
                                &&& r == (STATUS_SUCCESS, n as u32)
                                &&& final(self)@ == (LoopbackState {
                                    queues: old(self)@.queues.update(k, q.skip(n)),
                                    ..old(self)@
                                })
                                &&& final(buf)@.take(n) == q.take(n)
                            },
                        }
                    },
                },
            },
    {
        match req {
            Request::Abort { pipe } => {
                self.aborts.push(pipe);
                (STATUS_SUCCESS, 0)
            },
            Request::Transfer { pipe, kind, len, .. } => {
                match self.take_fault(pipe) {
                    Some(code) => (code, 0),
                    None => {
                        match kind {
                            TransferKind::Write => {
                                self.enqueue(pipe.number(), buf, len as usize);
                                (STATUS_SUCCESS, len)
                            },
                            TransferKind::Read => {
                                let n = self.dequeue(pipe.number(), buf, len as usize);
                                (STATUS_SUCCESS, n as u32)
                            },
                        }
                    },
                }
            },
        }
    }

    /// Carry out `t` against this device: issue its request, serve it, and
    /// serve the abort it asks for after a failure.
    fn run(&mut self, t: &mut Transfer, buf: &mut Vec<u8>) -> (r: Result<usize, D3xxError>)
        requires
            old(self).wf(),
            old(t).spec_phase() == Phase::Ready,
            !old(t).spec_overlapped(),
            old(t).spec_len() <= old(buf).len(),
        ensures
            final(self).wf(),
            final(buf).len() == old(buf).len(),
            ({
                let pipe = old(t).spec_pipe();
                match old(self)@.fault_on(pipe) {
                    Some(code) => r == Err::<usize, D3xxError>(error_of(code))
                        && final(self)@ == old(self)@.after_failure(pipe),
                    None => r is Ok && old(self)@.fault_on(pipe) is None,
                }
            }),
            old(self)@.fault_on(old(t).spec_pipe()) is None ==> ({
                let pipe = old(t).spec_pipe();
                let len = old(t).spec_len();
                let k = pipe_number(pipe) as int;
                let q = old(self)@.queues[k];
                match old(t).spec_kind() {
                    TransferKind::Write => r == Ok::<usize, D3xxError>(len as usize) && final(self)@ == (LoopbackState {
                        queues: old(self)@.queues.update(k, q + old(buf)@.take(len as int)),
                        ..old(self)@
                    }),
                    TransferKind::Read => {
                        let n = if len <= q.len() { len as int } else { q.len() as int };
                        &&& r == Ok::<usize, D3xxError>(n as usize)
                        &&& final(self)@ == (LoopbackState { queues: old(self)@.queues.update(k, q.skip(n)), ..old(self)@ })
                        &&& final(buf)@.take(n) == q.take(n)
                    },
                }
            }),
    {
        let ghost s0 = self@;
        let ghost pipe = t.spec_pipe();
        let req = t.start();
        let (status, count) = self.serve(req, buf);
        proof {
            if s0.fault_on(pipe) is Some {
                assert(status == s0.fault_on(pipe)->Some_0);
                assert(status != STATUS_SUCCESS);
                assert(self@ == (LoopbackState { fault: None, ..s0 }));
            }
        }
        match t.on_status(status, count) {
            Some(abort) => {
                let (abort_status, abort_count) = self.serve(abort, buf);
                t.on_status(abort_status, abort_count);
                proof {
                    assert(self@.aborts =~= s0.aborts.push(pipe));
                    assert(self@.queues =~= s0.queues);
                }
            },
            None => {},
        }
        match t.outcome() {
            Some(x) => x,
            None => Err(D3xxError::OtherError),
        }
    }

    /// Write `data` to output pipe `pipe`.
    pub fn write(&mut self, pipe: Pipe, data: &Vec<u8>) -> (r: Result<usize, D3xxError>)
        requires
            old(self).wf(),
            pipe_is_out(pipe),
            data.len() <= u32::MAX,
        ensures
            final(self).wf(),
            (final(self)@, r) == old(self)@.write_spec(pipe, data@),
    {
        let mut t = Transfer::new(pipe, TransferKind::Write, data.len(), false);
        let mut buf: Vec<u8> = Vec::new();
        let mut i: usize = 0;
        while i < data.len()
            invariant
                i <= data.len(),
                buf@ == data@.take(i as int),
            decreases data.len() - i,
        {
            buf.push(data[i]);
            proof {
                assert(data@.take(i as int + 1) =~= data@.take(i as int).push(data@[i as int]));
            }
            i = i + 1;
        }
        proof {
            assert(buf@ =~= data@);
            assert(buf@.take(data.len() as int) =~= data@);
        }
        let r = self.run(&mut t, &mut buf);
        proof {
            if old(self)@.fault_on(pipe) is None {
                assert(final(self)@.queues =~= old(self)@.write_spec(pipe, data@).0.queues);
            }
        }
        r
    }

    /// Read up to `len` bytes from input pipe `pipe`.
    pub fn read(&mut self, pipe: Pipe, len: usize) -> (r: Result<Vec<u8>, D3xxError>)
        requires
            old(self).wf(),
            pipe_is_in(pipe),
            len <= u32::MAX,
        ensures
            final(self).wf(),
            final(self)@ == old(self)@.read_spec(pipe, len as nat).0,
            r matches Ok(v) ==> old(self)@.read_spec(pipe, len as nat).1 == Ok::<Seq<u8>, D3xxError>(v@),
            r matches Err(e) ==> old(self)@.read_spec(pipe, len as nat).1 == Err::<Seq<u8>, D3xxError>(e),
    {
        let mut t = Transfer::new(pipe, TransferKind::Read, len, false);
        let mut buf: Vec<u8> = Vec::new();
        let mut i: usize = 0;
        while i < len
            invariant
                i <= len,
                buf.len() == i,
            decreases len - i,
        {
            buf.push(0);
            i = i + 1;
        }
        match self.run(&mut t, &mut buf) {
            Ok(n) => {
                buf.truncate(n);
                proof {
                    assert(buf@ =~= old(self)@.read_spec(pipe, len as nat).1->Ok_0);
                }
                Ok(buf)
            },
            Err(e) => Err(e),
        }
    }
}

/// Writing bytes to an output pipe and then reading as many bytes from the
/// input pipe of the same number gives the bytes back unchanged and in order,
/// when that input pipe had nothing queued and no failure is armed for either
/// pipe.
pub proof fn lemma_loopback_round_trip(s: LoopbackState, out: Pipe, input: Pipe, data: Seq<u8>)
    requires
        s.wf(),
        pipe_is_out(out),
        pipe_is_in(input),
        pipe_number(out) == pipe_number(input),
        s.queues[pipe_number(input) as int] == Seq::<u8>::empty(),
        s.fault_on(out) is None,
        s.fault_on(input) is None,
        data.len() <= u32::MAX,
    ensures
        ({
            let (s1, written) = s.write_spec(out, data);
            let (s2, read) = s1.read_spec(input, data.len());
            &&& written == Ok::<usize, D3xxError>(data.len() as usize)
            &&& read == Ok::<Seq<u8>, D3xxError>(data)
            &&& s2.queues[pipe_number(input) as int] == Seq::<u8>::empty()
        }),
{
    let k = pipe_number(input) as int;
    let s1 = s.write_spec(out, data).0;
    assert(s1.fault == s.fault);
    assert(s1.queues[k] =~= data);
    assert(data.take(data.len() as int) =~= data);
    assert(data.skip(data.len() as int) =~= Seq::<u8>::empty());
}

/// A transfer that the device fails leaves exactly one more abort in its log,
/// of the pipe transferred on, and reports the armed status's error.
pub proof fn lemma_loopback_failure_aborts_once(s: LoopbackState, pipe: Pipe, data: Seq<u8>, len: nat)
    requires
        s.wf(),
        s.fault_on(pipe) is Some,
    ensures
        ({
            let code = s.fault_on(pipe)->Some_0;
            let (w, wr) = s.write_spec(pipe, data);
            let (r, rr) = s.read_spec(pipe, len);
            &&& wr == Err::<usize, D3xxError>(error_of(code))
            &&& rr == Err::<Seq<u8>, D3xxError>(error_of(code))
            &&& w.aborts == s.aborts.push(pipe)
            &&& r.aborts == s.aborts.push(pipe)
            &&& w.aborts.filter(|p: Pipe| p == pipe).len() == s.aborts.filter(|p: Pipe| p == pipe).len() + 1
        }),
{
    s.aborts.lemma_filter_push(pipe, |p: Pipe| p == pipe);
}

} // verus!
