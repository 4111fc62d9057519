//! Kernel submissions and the queue they wait in until the driver hands
//! them to the ring.

use vstd::prelude::*;

verus! {

/// The two operations on registered buffers.
#[derive(Clone, Copy, Debug, PartialEq, Eq, Structural)]
pub enum OpKind {
    /// Read from the descriptor into the buffer.
    ReadFixed,
    /// Write from the buffer to the descriptor.
    WriteFixed,
}

/// What the kernel is told about one operation.
#[derive(Clone, Copy, Debug, PartialEq, Eq, Structural)]
pub struct Submission {
    /// Operation requested.
    pub kind: OpKind,
    /// Descriptor operated on.
    pub fd: i32,
    /// Address of the first byte to transfer.
    pub addr: usize,
    /// Number of bytes asked for.
    pub len: u32,
    /// Slot index of the registered buffer that holds the address.
    pub buf_index: u16,
    /// Position in the file.
    pub offset: u64,
}

/// A submission together with the slot it was queued under.
#[derive(Clone, Copy, Debug, PartialEq, Eq, Structural)]
pub struct Queued {
    /// Identifies the operation when its completion arrives.
    pub slot: u64,
    /// What the kernel is to do.
    pub entry: Submission,
}

/// Why a submission was not queued.
#[derive(Clone, Copy, Debug, PartialEq, Eq, Structural)]
pub enum SubmitError {
    /// The queue holds as many submissions as it has room for, or has run
    /// out of slots.
    QueueFull,
}

/// A submission queue as mathematical values.
pub struct QueueState {
    /// Submissions not yet handed to the ring, oldest first.
    pub pending: Seq<Queued>,
    /// How many the queue holds at most.
    pub capacity: nat,
    /// Slot that the next submission gets.
    pub next_slot: nat,
}

impl QueueState {
    /// No further submission can be queued.
    pub open spec fn is_full(self) -> bool {
        self.pending.len() >= self.capacity || self.next_slot >= u64::MAX
    }

    /// The state after `entry` was queued.
    pub open spec fn pushed(self, entry: Submission) -> QueueState {
        QueueState {
            pending: self.pending.push(Queued { slot: self.next_slot as u64, entry }),
            next_slot: self.next_slot + 1,
            ..self
        }
    }
}

/// Submissions waiting for the driver, in the order they were made.
#[derive(Debug)]
pub struct SubmissionQueue {
    pending: Vec<Queued>,
    capacity: usize,
    next_slot: u64,
}

impl View for SubmissionQueue {
    type V = QueueState;

    closed spec fn view(&self) -> QueueState {
        QueueState {
            pending: self.pending@,
            capacity: self.capacity as nat,
            next_slot: self.next_slot as nat,
        }
    }
}

impl SubmissionQueue {
    /// An empty queue with room for `capacity` submissions.
    pub fn new(capacity: usize) -> (q: SubmissionQueue)
        ensures
            q@ == (QueueState { pending: Seq::empty(), capacity: capacity as nat, next_slot: 0 }),
    {
        SubmissionQueue { pending: Vec::new(), capacity, next_slot: 0 }
    }

    /// How many submissions wait.
    pub fn len(&self) -> (n: usize)
        ensures
            n == self@.pending.len(),
    {
        self.pending.len()
    }

    /// Whether a further submission would be refused.
    pub fn is_full(&self) -> (full: bool)
        ensures
            full == self@.is_full(),
    {
        self.pending.len() >= self.capacity || self.next_slot == u64::MAX
    }

    /// Queues `entry` and returns its slot, or refuses it where the queue is
    /// full and leaves the queue as it was.
    pub fn push(&mut self, entry: Submission) -> (r: Result<u64, SubmitError>)
        ensures
            r is Ok <==> !old(self)@.is_full(),
            r matches Ok(slot) ==> ({
                &&& slot == old(self)@.next_slot
                &&& final(self)@ == old(self)@.pushed(entry)
            }),
            r is Err ==> final(self)@ == old(self)@,
    {
        if self.is_full() {
            Err(SubmitError::QueueFull)
        } else {
            let slot: u64 = self.next_slot;
            self.pending.push(Queued { slot, entry });
            self.next_slot = slot + 1;
            Ok(slot)
        }
    }

    /// Takes the oldest waiting submission out for the driver to hand to the
    /// ring; `None` where none waits.
    pub fn pop(&mut self) -> (r: Option<Queued>)
        ensures
            r is Some <==> old(self)@.pending.len() > 0,
            r matches Some(q) ==> ({
                &&& q == old(self)@.pending[0]
                &&& final(self)@.pending == old(self)@.pending.skip(1)
            }),
            r is None ==> final(self)@ == old(self)@,
            final(self)@.capacity == old(self)@.capacity,
            final(self)@.next_slot == old(self)@.next_slot,
    {
        if self.pending.len() == 0 {
            None
        } else {
            let q = self.pending.remove(0);
            assert(self.pending@ =~= old(self).pending@.skip(1));
            Some(q)
        }
    }
}

} // verus!
