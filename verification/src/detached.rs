//! Operations whose callers stopped waiting.
//!
//! The kernel may still write into the buffer of an operation after its
//! caller has lost interest. Such a handle is not thrown away: it moves into
//! a table that keeps the payload, and with it the buffer and the descriptor
//! handle, until the completion has arrived.

use vstd::prelude::*;
use crate::op::{Lifecycle, Op};

verus! {

/// The handles of abandoned operations that the kernel has not finished.
#[derive(Debug)]
pub struct Detached<T> {
    ops: Vec<Op<T>>,
}

impl<T> View for Detached<T> {
    type V = Seq<Op<T>>;

    closed spec fn view(&self) -> Seq<Op<T>> {
        self.ops@
    }
}

/// `i` is the place of the first handle in `ops` that was queued under `slot`.
pub open spec fn is_first_with_slot<T>(ops: Seq<Op<T>>, slot: u64, i: int) -> bool {
    &&& 0 <= i < ops.len()
    &&& ops[i].slot_id() == slot
    &&& forall|j: int| 0 <= j < i ==> (#[trigger] ops[j]).slot_id() != slot
}

/// Some handle in `ops` was queued under `slot`.
pub open spec fn holds_slot<T>(ops: Seq<Op<T>>, slot: u64) -> bool {
    exists|i: int| 0 <= i < ops.len() && (#[trigger] ops[i]).slot_id() == slot
}

impl<T> Detached<T> {
    /// Every handle in the table still waits for its completion.
    pub open spec fn wf(&self) -> bool {
        forall|i: int|
            0 <= i < self@.len() ==> (#[trigger] self@[i]).lifecycle() == Lifecycle::Submitted
    }

    /// An empty table.
    pub fn new() -> (d: Detached<T>)
        ensures
            d@ == Seq::<Op<T>>::empty(),
            d.wf(),
    {
        Detached { ops: Vec::new() }
    }

    /// How many operations the table keeps alive.
    pub fn len(&self) -> (n: usize)
        ensures
            n == self@.len(),
    {
        self.ops.len()
    }

    /// Takes over a handle its caller gives up. Where the kernel has not
    /// finished, the table keeps the handle. Otherwise nothing needs keeping
    /// alive and the handle comes straight back.
    pub fn adopt(&mut self, op: Op<T>) -> (r: Option<Op<T>>)
        requires
            old(self).wf(),
        ensures
            final(self).wf(),
            r is None <==> op.lifecycle() == Lifecycle::Submitted,
            r is None ==> final(self)@ == old(self)@.push(op),
            r matches Some(back) ==> back == op && final(self)@ == old(self)@,
    {
        if op.is_done() || op.is_completed() {
            Some(op)
        } else {
            self.ops.push(op);
            None
        }
    }

    /// Delivers the completion `raw` of the operation queued under `slot`.
    /// The first handle queued under that slot takes it and leaves the
    /// table, for its result to be taken and its payload released. Where the
    /// table holds no such handle, nothing changes.
    pub fn complete(&mut self, slot: u64, raw: i32) -> (r: Option<Op<T>>)
        requires
            old(self).wf(),
        ensures
            final(self).wf(),
            r is Some <==> holds_slot(old(self)@, slot),
            r is None ==> final(self)@ == old(self)@,
            r matches Some(op) ==> ({
                &&& op.slot_id() == slot
                &&& op.lifecycle() == Lifecycle::Completed(raw)
                &&& exists|i: int|
                    ({
                        &&& is_first_with_slot(old(self)@, slot, i)
                        &&& final(self)@ == old(self)@.remove(i)
                        &&& op.payload() == (#[trigger] old(self)@[i]).payload()
                    })
            }),
    {
        let mut i: usize = 0;
        while i < self.ops.len()
            invariant
                i <= self.ops.len(),
                self.ops@ == old(self).ops@,
                old(self).wf(),
                forall|j: int| 0 <= j < i ==> (#[trigger] self.ops@[j]).slot_id() != slot,
            decreases self.ops.len() - i,
        {
            if self.ops[i].slot() == slot {
                let mut op = self.ops.remove(i);
                proof {
                    assert(is_first_with_slot(old(self)@, slot, i as int));
                }
                let _taken = op.complete(slot, raw);
                return Some(op);
            }
            i = i + 1;
        }
        None
    }
}

} // verus!
