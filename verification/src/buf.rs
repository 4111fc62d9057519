//! Registered buffer regions.

use vstd::prelude::*;

verus! {

/// What a registered buffer region is, as mathematical values.
pub struct Region {
    /// Slot under which the kernel knows the memory.
    pub index: nat,
    /// Address of the first byte.
    pub addr: nat,
    /// Number of bytes the region can hold.
    pub capacity: nat,
    /// Number of leading bytes that hold data.
    pub init: nat,
}

impl Region {
    /// The region is one the kernel can be handed: the initialized prefix lies
    /// within the capacity, the capacity fits the length field of a submission
    /// and the span does not wrap around the address space.
    pub open spec fn valid(self) -> bool {
        &&& self.index <= u16::MAX
        &&& self.init <= self.capacity
        &&& self.capacity <= u32::MAX
        &&& self.addr + self.capacity <= usize::MAX
    }

    /// The region after `n` more bytes were written behind the initialized
    /// prefix, capped at the capacity.
    pub open spec fn advanced_by(self, n: nat) -> Region {
        Region {
            init: if self.init + n <= self.capacity { self.init + n } else { self.capacity },
            ..self
        }
    }
}

/// A span of memory registered with the kernel under a stable slot index.
///
/// Address, capacity and slot index never change once the value exists; only
/// the initialized length does, and only upward.
#[derive(Debug)]
pub struct FixedBuf {
    index: u16,
    addr: usize,
    capacity: usize,
    init: usize,
}

impl View for FixedBuf {
    type V = Region;

    closed spec fn view(&self) -> Region {
        Region {
            index: self.index as nat,
            addr: self.addr as nat,
            capacity: self.capacity as nat,
            init: self.init as nat,
        }
    }
}

impl FixedBuf {
    #[verifier::type_invariant]
    closed spec fn inv(self) -> bool {
        self@.valid()
    }

    /// Whether `new` accepts these values.
    pub open spec fn accepts(index: u16, addr: usize, capacity: usize, init: usize) -> bool {
        (Region {
            index: index as nat,
            addr: addr as nat,
            capacity: capacity as nat,
            init: init as nat,
        }).valid()
    }

    /// Describes a registered region, or `None` where the values describe no
    /// region the kernel could be handed.
    pub fn new(index: u16, addr: usize, capacity: usize, init: usize) -> (r: Option<FixedBuf>)
        ensures
            r is Some <==> Self::accepts(index, addr, capacity, init),
            r matches Some(b) ==> b@ == (Region {
                index: index as nat,
                addr: addr as nat,
                capacity: capacity as nat,
                init: init as nat,
            }),
    {
        if init > capacity || capacity > 0xffff_ffff || addr > usize::MAX - capacity {
            None
        } else {
            Some(FixedBuf { index, addr, capacity, init })
        }
    }

    /// The slot index the kernel knows the region by.
    pub fn buf_index(&self) -> (r: u16)
        ensures
            r == self@.index,
            self@.valid(),
    {
        proof {
            use_type_invariant(self);
        }
        self.index
    }

    /// The address of the region's first byte.
    pub fn stable_addr(&self) -> (r: usize)
        ensures
            r == self@.addr,
            self@.valid(),
    {
        proof {
            use_type_invariant(self);
        }
        self.addr
    }

    /// The number of bytes that hold data.
    pub fn bytes_init(&self) -> (r: usize)
        ensures
            r == self@.init,
            self@.valid(),
    {
        proof {
            use_type_invariant(self);
        }
        self.init
    }

    /// The number of bytes the region can hold.
    pub fn bytes_total(&self) -> (r: usize)
        ensures
            r == self@.capacity,
            self@.valid(),
    {
        proof {
            use_type_invariant(self);
        }
        self.capacity
    }

    /// Records that the kernel wrote `n` bytes behind the initialized prefix.
    /// Only the completion of a read knows that it did, so nothing outside
    /// this crate can call this.
    pub(crate) fn advance_init(&mut self, n: usize)
        ensures
            final(self)@ == old(self)@.advanced_by(n as nat),
            final(self)@.valid(),
    {
        proof {
            use_type_invariant(&*self);
        }
        let room: usize = self.capacity - self.init;
        if n <= room {
            self.init = self.init + n;
        } else {
            self.init = self.capacity;
        }
    }
}

/// Advancing the initialized length never lowers it, never passes the
/// capacity, and leaves slot index, address and capacity as they were.
pub proof fn lemma_advance_keeps_region(r: Region, n: nat)
    requires
        r.valid(),
    ensures
        r.advanced_by(n).valid(),
        r.advanced_by(n).init >= r.init,
        r.advanced_by(n).init <= r.capacity,
        r.advanced_by(n).index == r.index,
        r.advanced_by(n).addr == r.addr,
        r.advanced_by(n).capacity == r.capacity,
{
}

} // verus!
