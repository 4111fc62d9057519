//! The operation handle: what a caller holds while the kernel works.
//!
//! A handle owns its payload, and with it the buffer and the descriptor
//! handle, from submission until the caller has taken the result. The driver
//! reports the completion to the handle; the caller polls it.

use vstd::prelude::*;
use crate::buf::FixedBuf;
use crate::fd::SharedFd;
use crate::queue::{Submission, SubmissionQueue, SubmitError};

verus! {

/// An error the kernel reported for an operation.
#[derive(Clone, Copy, Debug, PartialEq, Eq, Structural)]
pub struct OsError {
    /// The error number, as a positive value.
    pub code: u32,
}

/// What a raw completion value means: a byte count where it is not
/// negative, else the error whose number is its negation.
pub open spec fn result_of(raw: i32) -> Result<usize, OsError> {
    if raw >= 0 {
        Ok(raw as usize)
    } else {
        Err(OsError { code: (-(raw as int)) as u32 })
    }
}

/// Turns the raw value of a completion into a byte count or an error.
pub fn decode_result(raw: i32) -> (r: Result<usize, OsError>)
    ensures
        r == result_of(raw),
{
    if raw >= 0 {
        Ok(raw as usize)
    } else {
        let wide: i64 = raw as i64;
        Err(OsError { code: (-wide) as u32 })
    }
}

/// Where an operation stands.
#[derive(Clone, Copy, Debug, PartialEq, Eq, Structural)]
pub enum Lifecycle {
    /// Queued or in the kernel's hands; no result yet.
    Submitted,
    /// The kernel has finished with this raw value; the caller has not yet
    /// taken it.
    Completed(i32),
    /// The caller has taken the result. Nothing is left in the handle.
    Done,
}

/// The answer of a poll.
#[derive(Debug)]
pub enum Poll<T> {
    /// No result yet; ask again after the driver's next wake-up.
    Pending,
    /// The result, handed out once.
    Ready(T),
}

/// A finished operation: the kernel's answer and the payload that was
/// submitted.
#[derive(Debug)]
pub struct Completion<T> {
    /// Byte count or error.
    pub result: Result<usize, OsError>,
    /// The payload, as it was submitted.
    pub data: T,
}

/// A finished read or write on a registered buffer: the result, the buffer
/// and the descriptor handle that the operation held.
#[derive(Debug)]
pub struct BufResult {
    /// Bytes transferred, or the kernel's error.
    pub result: Result<usize, OsError>,
    /// The buffer, back with the caller.
    pub buf: FixedBuf,
    /// The operation's descriptor handle, for the caller to give up.
    pub fd: SharedFd,
}

/// A payload that was refused at submission, handed back untouched.
#[derive(Debug)]
pub struct Rejected<T> {
    /// Why it was refused.
    pub error: SubmitError,
    /// The payload.
    pub data: T,
}

/// What an operation's payload must offer: the submission that tells the
/// kernel what to do with it.
pub trait Payload: Sized {
    /// The submission for this payload.
    spec fn entry(&self) -> Submission;

    /// Builds the submission for this payload.
    fn build(&self) -> (s: Submission)
        ensures
            s == self.entry(),
    ;
}

#[derive(Debug)]
enum State<T> {
    Submitted(T),
    Completed(i32, T),
    Done,
}

/// An operation in flight.
#[derive(Debug)]
pub struct Op<T> {
    slot: u64,
    state: State<T>,
}

impl<T> Op<T> {
    /// The slot under which the operation was queued.
    pub closed spec fn slot_id(&self) -> u64 {
        self.slot
    }

    /// Where the operation stands.
    pub closed spec fn lifecycle(&self) -> Lifecycle {
        match self.state {
            State::Submitted(_) => Lifecycle::Submitted,
            State::Completed(raw, _) => Lifecycle::Completed(raw),
            State::Done => Lifecycle::Done,
        }
    }

    /// The payload the handle owns; `None` once the result was taken.
    pub closed spec fn payload(&self) -> Option<T> {
        match self.state {
            State::Submitted(data) => Some(data),
            State::Completed(_, data) => Some(data),
            State::Done => None,
        }
    }

    /// The slot under which the operation was queued.
    pub fn slot(&self) -> (s: u64)
        ensures
            s == self.slot_id(),
    {
        self.slot
    }

    /// Whether the result was already taken. A handle in this state must not
    /// be polled again.
    pub fn is_done(&self) -> (d: bool)
        ensures
            d == (self.lifecycle() == Lifecycle::Done),
    {
        match &self.state {
            State::Done => true,
            _ => false,
        }
    }

    /// Whether the kernel has finished and the result waits to be taken.
    pub fn is_completed(&self) -> (c: bool)
        ensures
            c == (self.lifecycle() is Completed),
    {
        match &self.state {
            State::Completed(_, _) => true,
            _ => false,
        }
    }

    /// Delivers the completion `raw` of the operation queued under `slot`.
    /// The handle takes it where the slot is its own and it still waits for
    /// one; otherwise nothing changes. A handle takes a completion once.
    pub fn complete(&mut self, slot: u64, raw: i32) -> (taken: bool)
        ensures
            taken <==> slot == old(self).slot_id() && old(self).lifecycle() == Lifecycle::Submitted,
            taken ==> final(self).lifecycle() == Lifecycle::Completed(raw),
            !taken ==> final(self).lifecycle() == old(self).lifecycle(),
            final(self).payload() == old(self).payload(),
            final(self).slot_id() == old(self).slot_id(),
    {
        let waits = match &self.state {
            State::Submitted(_) => true,
            _ => false,
        };
        if slot != self.slot || !waits {
            return false;
        }
        let mut held = State::Done;
        std::mem::swap(&mut self.state, &mut held);
        match held {
            State::Submitted(data) => {
                self.state = State::Completed(raw, data);
            },
            _ => {},
        }
        true
    }

    /// Asks for the result without waiting. While the kernel has not
    /// finished, the answer is `Pending` and the handle stays as it is. Once
    /// it has, the answer is `Ready` with the result and the payload, and the
    /// handle is done: it hands out a result once and must not be polled
    /// after that.
    pub fn poll(&mut self) -> (r: Poll<Completion<T>>)
        requires
            old(self).lifecycle() != Lifecycle::Done,
        ensures
            final(self).slot_id() == old(self).slot_id(),
            old(self).lifecycle() == Lifecycle::Submitted ==> ({
                &&& r is Pending
                &&& final(self).lifecycle() == Lifecycle::Submitted
                &&& final(self).payload() == old(self).payload()
            }),
            old(self).lifecycle() matches Lifecycle::Completed(raw) ==> ({
                &&& r matches Poll::Ready(c)
                &&& c.result == result_of(raw)
                &&& Some(c.data) == old(self).payload()
                &&& final(self).lifecycle() == Lifecycle::Done
                &&& final(self).payload() is None
            }),
    {
        if !self.is_completed() {
            return Poll::Pending;
        }
        let mut held = State::Done;
        std::mem::swap(&mut self.state, &mut held);
        match held {
            State::Completed(raw, data) => Poll::Ready(
                Completion { result: decode_result(raw), data },
            ),
            _ => Poll::Pending,
        }
    }
}

impl<T: Payload> Op<T> {
    /// Submits `data`: builds its submission, queues it and returns the
    /// handle that owns `data` from now on. Where the queue is full nothing
    /// is queued and `data` comes back with the error; that is no completion.
    pub fn submit_with(data: T, queue: &mut SubmissionQueue) -> (r: Result<Op<T>, Rejected<T>>)
        ensures
            r is Ok <==> !old(queue)@.is_full(),
            r matches Ok(op) ==> ({
                &&& op.slot_id() == old(queue)@.next_slot
                &&& op.lifecycle() == Lifecycle::Submitted
                &&& op.payload() == Some(data)
                &&& final(queue)@ == old(queue)@.pushed(data.entry())
            }),
            r matches Err(rej) ==> ({
                &&& rej.error == SubmitError::QueueFull
                &&& rej.data == data
                &&& final(queue)@ == old(queue)@
            }),
    {
        let entry = data.build();
        match queue.push(entry) {
            Ok(slot) => Ok(Op { slot, state: State::Submitted(data) }),
            Err(error) => Err(Rejected { error, data }),
        }
    }
}

/// A raw completion value is a byte count or an error, never both: a
/// non-negative one is the count itself, a negative one the error whose
/// number is its negation.
pub proof fn lemma_result_is_count_or_error(raw: i32)
    ensures
        raw >= 0 <==> result_of(raw) is Ok,
        raw >= 0 ==> result_of(raw) == Ok::<usize, OsError>(raw as usize),
        raw < 0 ==> result_of(raw) == Err::<usize, OsError>(OsError { code: (-raw) as u32 }),
{
}

} // verus!
