//! Reference-counted descriptor handles.
//!
//! A `Descriptor` stands for one open file descriptor and counts the handles
//! that refer to it. Handles are made and given up only through it, so the
//! count is the number of handles alive, those held by operations in flight
//! included. The descriptor is to be closed when the count reaches zero and
//! not before.

use vstd::prelude::*;

verus! {

/// An open descriptor as mathematical values: its number and how many
/// handles refer to it. With no handle left it is closed.
pub struct DescriptorState {
    pub raw: int,
    pub handles: nat,
}

impl DescriptorState {
    /// At least one handle refers to the descriptor.
    pub open spec fn is_open(self) -> bool {
        self.handles > 0
    }

    /// The state after one more handle was made.
    pub open spec fn cloned(self) -> DescriptorState {
        DescriptorState { handles: self.handles + 1, ..self }
    }

    /// The state after one handle was given up.
    pub open spec fn dropped(self) -> DescriptorState {
        DescriptorState { handles: (self.handles - 1) as nat, ..self }
    }
}

/// A handle to an open descriptor. It is neither `Clone` nor `Copy`: the
/// descriptor it belongs to makes further handles and takes them back.
#[derive(Debug)]
pub struct SharedFd {
    raw: i32,
}

impl View for SharedFd {
    type V = int;

    closed spec fn view(&self) -> int {
        self.raw as int
    }
}

impl SharedFd {
    /// The kernel's number for the descriptor.
    pub fn raw_fd(&self) -> (r: i32)
        ensures
            r == self@,
    {
        self.raw
    }
}

/// One open descriptor together with the count of its live handles.
#[derive(Debug)]
pub struct Descriptor {
    raw: i32,
    handles: usize,
}

impl View for Descriptor {
    type V = DescriptorState;

    closed spec fn view(&self) -> DescriptorState {
        DescriptorState { raw: self.raw as int, handles: self.handles as nat }
    }
}

impl Descriptor {
    /// Takes charge of the open descriptor `raw` and hands out its first handle.
    pub fn open(raw: i32) -> (r: (Descriptor, SharedFd))
        ensures
            r.0@ == (DescriptorState { raw: raw as int, handles: 1 }),
            r.1@ == raw,
    {
        (Descriptor { raw, handles: 1 }, SharedFd { raw })
    }

    /// The kernel's number for the descriptor.
    pub fn raw_fd(&self) -> (r: i32)
        ensures
            r == self@.raw,
    {
        self.raw
    }

    /// How many handles are alive.
    pub fn handles(&self) -> (r: usize)
        ensures
            r == self@.handles,
    {
        self.handles
    }

    /// Whether the descriptor is still open.
    pub fn is_open(&self) -> (r: bool)
        ensures
            r == self@.is_open(),
    {
        self.handles > 0
    }

    /// Whether `fd` is a handle from which this descriptor makes another.
    pub open spec fn can_clone(self, fd: SharedFd) -> bool {
        &&& fd@ == self@.raw
        &&& self@.is_open()
        &&& self@.handles < usize::MAX
    }

    /// Makes one more handle to the descriptor that `fd` refers to. Returns
    /// `None`, and counts nothing, where `fd` belongs to another descriptor,
    /// the descriptor is closed or the count cannot grow.
    pub fn clone_handle(&mut self, fd: &SharedFd) -> (r: Option<SharedFd>)
        ensures
            r is Some <==> old(self).can_clone(*fd),
            r matches Some(h) ==> h@ == old(self)@.raw && final(self)@ == old(self)@.cloned(),
            r is None ==> final(self)@ == old(self)@,
    {
        if fd.raw != self.raw || self.handles == 0 || self.handles == usize::MAX {
            None
        } else {
            self.handles = self.handles + 1;
            Some(SharedFd { raw: self.raw })
        }
    }

    /// Gives up the handle `fd`. Returns `true` where it was the last one: the
    /// descriptor is then closed. A handle of another descriptor changes
    /// nothing.
    pub fn drop_handle(&mut self, fd: SharedFd) -> (closed: bool)
        ensures
            fd@ == old(self)@.raw && old(self)@.is_open() ==> final(self)@ == old(self)@.dropped(),
            !(fd@ == old(self)@.raw && old(self)@.is_open()) ==> final(self)@ == old(self)@,
            closed <==> fd@ == old(self)@.raw && old(self)@.handles == 1,
    {
        if fd.raw != self.raw || self.handles == 0 {
            false
        } else {
            self.handles = self.handles - 1;
            self.handles == 0
        }
    }
}

/// A descriptor stays open as long as any handle is left: giving one up
/// closes it exactly when it was the only one.
pub proof fn lemma_open_until_last_handle(d: DescriptorState)
    requires
        d.is_open(),
    ensures
        d.dropped().is_open() <==> d.handles >= 2,
        d.dropped().raw == d.raw,
{
}

/// A handle made for an operation keeps the descriptor open after the
/// caller gave up its own: with the caller's handle gone, the descriptor is
/// open and as many handles are left as before the operation took one; it is
/// the operation's giving up its handle that brings the count down further.
pub proof fn lemma_clone_outlives_caller(d: DescriptorState)
    requires
        d.is_open(),
    ensures
        d.cloned().dropped().is_open(),
        d.cloned().dropped() == d,
        d.handles == 1 ==> !d.cloned().dropped().dropped().is_open(),
{
}

} // verus!
