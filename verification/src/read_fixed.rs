//! Reading from a descriptor into a registered buffer.

use vstd::prelude::*;
use crate::buf::{FixedBuf, Region};
use crate::fd::SharedFd;
use crate::op::{result_of, BufResult, Completion, Lifecycle, Op, Payload, Poll, Rejected};
use crate::queue::{OpKind, Submission, SubmissionQueue, SubmitError};

verus! {

/// The payload of a read in flight.
#[derive(Debug)]
pub struct ReadFixed {
    /// Keeps the descriptor open while the operation is in flight.
    pub fd: SharedFd,
    /// The buffer the kernel writes into.
    pub buf: FixedBuf,
    /// Position in the file to read from.
    pub offset: u64,
}

/// The submission of a read: the whole capacity of the region, from its
/// first byte, at `offset` in the file.
pub open spec fn read_entry(fd: int, region: Region, offset: u64) -> Submission {
    Submission {
        kind: OpKind::ReadFixed,
        fd: fd as i32,
        addr: region.addr as usize,
        len: region.capacity as u32,
        buf_index: region.index as u16,
        offset,
    }
}

/// The region a read hands back: after a byte count, the initialized length
/// advanced by it; after an error, the region as it was submitted.
pub open spec fn region_after_read(before: Region, raw: i32) -> Region {
    if raw >= 0 {
        before.advanced_by(raw as nat)
    } else {
        before
    }
}

impl Payload for ReadFixed {
    open spec fn entry(&self) -> Submission {
        read_entry(self.fd@, self.buf@, self.offset)
    }

    fn build(&self) -> (s: Submission) {
        let addr: usize = self.buf.stable_addr();
        let len: usize = self.buf.bytes_total();
        let buf_index: u16 = self.buf.buf_index();
        Submission {
            kind: OpKind::ReadFixed,
            fd: self.fd.raw_fd(),
            addr,
            len: len as u32,
            buf_index,
            offset: self.offset,
        }
    }
}

impl Op<ReadFixed> {
    /// Submits a read from `fd` at `offset` into `buf`. The handle owns `fd`
    /// and `buf` until the result is taken. Where the queue is full, both
    /// come back with the error and nothing was queued.
    pub fn read_fixed_at(
        fd: SharedFd,
        buf: FixedBuf,
        offset: u64,
        queue: &mut SubmissionQueue,
    ) -> (r: Result<Op<ReadFixed>, Rejected<ReadFixed>>)
        ensures
            r is Ok <==> !old(queue)@.is_full(),
            r matches Ok(op) ==> ({
                &&& op.slot_id() == old(queue)@.next_slot
                &&& op.lifecycle() == Lifecycle::Submitted
                &&& op.payload() == Some(ReadFixed { fd, buf, offset })
                &&& final(queue)@ == old(queue)@.pushed(read_entry(fd@, buf@, offset))
            }),
            r matches Err(rej) ==> ({
                &&& rej.error == SubmitError::QueueFull
                &&& rej.data == (ReadFixed { fd, buf, offset })
                &&& final(queue)@ == old(queue)@
            }),
    {
        Op::submit_with(ReadFixed { fd, buf, offset }, queue)
    }

    /// Asks for the result of the read. On a byte count the buffer comes back
    /// with its initialized length advanced by the count, on an error as it
    /// was submitted; slot index, address and capacity are the same either
    /// way. The handle is done after `Ready` and must not be polled again.
    pub fn poll_read_fixed(&mut self) -> (r: Poll<BufResult>)
        requires
            old(self).lifecycle() != Lifecycle::Done,
        ensures
            final(self).slot_id() == old(self).slot_id(),
            old(self).lifecycle() == Lifecycle::Submitted ==> ({
                &&& r is Pending
                &&& final(self).lifecycle() == Lifecycle::Submitted
                &&& final(self).payload() == old(self).payload()
            }),
            old(self).lifecycle() matches Lifecycle::Completed(raw) ==> ({
                &&& r matches Poll::Ready(out)
                &&& old(self).payload() matches Some(data)
                &&& out.result == result_of(raw)
                &&& out.buf@ == region_after_read(data.buf@, raw)
                &&& out.fd == data.fd
                &&& final(self).lifecycle() == Lifecycle::Done
                &&& final(self).payload() is None
            }),
    {
        match self.poll() {
            Poll::Pending => Poll::Pending,
            Poll::Ready(complete) => {
                let Completion { result, data } = complete;
                let ReadFixed { fd, buf, offset: _ } = data;
                let mut buf = buf;
                if let Ok(n) = result {
                    buf.advance_init(n);
                }
                Poll::Ready(BufResult { result, buf, fd })
            },
        }
    }
}

/// After a read that reports `n` bytes, with room for them behind the
/// initialized prefix, the initialized length is the one before plus `n`:
/// no byte beyond that is claimed.
pub proof fn lemma_read_advances_init(before: Region, n: i32)
    requires
        before.valid(),
        0 <= n <= before.capacity,
        before.init + n <= before.capacity,
    ensures
        region_after_read(before, n).init == before.init + n,
        region_after_read(before, n).valid(),
{
}

/// Whatever a read reports, the region it hands back lies where the
/// submitted one lay: same slot index, same address, same capacity; its
/// initialized length is not lower and within the capacity; and after an
/// error nothing of it has changed.
pub proof fn lemma_read_keeps_placement(before: Region, raw: i32)
    requires
        before.valid(),
    ensures
        region_after_read(before, raw).index == before.index,
        region_after_read(before, raw).addr == before.addr,
        region_after_read(before, raw).capacity == before.capacity,
        before.init <= region_after_read(before, raw).init <= before.capacity,
        raw < 0 ==> region_after_read(before, raw) == before,
{
}

} // verus!
