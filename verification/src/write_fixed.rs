//! Writing from a registered buffer to a descriptor.

use vstd::prelude::*;
use crate::buf::{FixedBuf, Region};
use crate::fd::SharedFd;
use crate::op::{result_of, BufResult, Completion, Lifecycle, Op, Payload, Poll, Rejected};
use crate::queue::{OpKind, Submission, SubmissionQueue, SubmitError};

verus! {

/// The payload of a write in flight.
#[derive(Debug)]
pub struct WriteFixed {
    /// Keeps the descriptor open while the operation is in flight.
    pub fd: SharedFd,
    /// The buffer the kernel reads from.
    pub buf: FixedBuf,
    /// Position in the file to write to.
    pub offset: u64,
}

/// The submission of a write: the initialized bytes of the region, from its
/// first byte, at `offset` in the file.
pub open spec fn write_entry(fd: int, region: Region, offset: u64) -> Submission {
    Submission {
        kind: OpKind::WriteFixed,
        fd: fd as i32,
        addr: region.addr as usize,
        len: region.init as u32,
        buf_index: region.index as u16,
        offset,
    }
}

impl Payload for WriteFixed {
    open spec fn entry(&self) -> Submission {
        write_entry(self.fd@, self.buf@, self.offset)
    }

    fn build(&self) -> (s: Submission) {
        let addr: usize = self.buf.stable_addr();
        let len: usize = self.buf.bytes_init();
        let buf_index: u16 = self.buf.buf_index();
        Submission {
            kind: OpKind::WriteFixed,
            fd: self.fd.raw_fd(),
            addr,
            len: len as u32,
            buf_index,
            offset: self.offset,
        }
    }
}

impl Op<WriteFixed> {
    /// Submits a write of the initialized bytes of `buf` to `fd` at `offset`.
    /// The handle owns `fd` and `buf` until the result is taken. Where the
    /// queue is full, both come back with the error and nothing was queued.
    pub fn write_fixed_at(
        fd: SharedFd,
        buf: FixedBuf,
        offset: u64,
        queue: &mut SubmissionQueue,
    ) -> (r: Result<Op<WriteFixed>, Rejected<WriteFixed>>)
        ensures
            r is Ok <==> !old(queue)@.is_full(),
            r matches Ok(op) ==> ({
                &&& op.slot_id() == old(queue)@.next_slot
                &&& op.lifecycle() == Lifecycle::Submitted
                &&& op.payload() == Some(WriteFixed { fd, buf, offset })
                &&& final(queue)@ == old(queue)@.pushed(write_entry(fd@, buf@, offset))
            }),
            r matches Err(rej) ==> ({
                &&& rej.error == SubmitError::QueueFull
                &&& rej.data == (WriteFixed { fd, buf, offset })
                &&& final(queue)@ == old(queue)@
            }),
    {
        Op::submit_with(WriteFixed { fd, buf, offset }, queue)
    }

    /// Asks for the result of the write. The buffer comes back exactly as it
    /// was submitted, whether the kernel reports a byte count or an error.
    /// The handle is done after `Ready` and must not be polled again.
    pub fn poll_write_fixed(&mut self) -> (r: Poll<BufResult>)
        requires
            old(self).lifecycle() != Lifecycle::Done,
        ensures
            final(self).slot_id() == old(self).slot_id(),
            old(self).lifecycle() == Lifecycle::Submitted ==> ({
                &&& r is Pending
                &&& final(self).lifecycle() == Lifecycle::Submitted
                &&& final(self).payload() == old(self).payload()
            }),
            old(self).lifecycle() matches Lifecycle::Completed(raw) ==> ({
                &&& r matches Poll::Ready(out)
                &&& old(self).payload() matches Some(data)
                &&& out.result == result_of(raw)
                &&& out.buf == data.buf
                &&& out.fd == data.fd
                &&& final(self).lifecycle() == Lifecycle::Done
                &&& final(self).payload() is None
            }),
    {
        match self.poll() {
            Poll::Pending => Poll::Pending,
            Poll::Ready(complete) => {
                let Completion { result, data } = complete;
                let WriteFixed { fd, buf, offset: _ } = data;
                Poll::Ready(BufResult { result, buf, fd })
            },
        }
    }
}

} // verus!
