//! Fixed-buffer read and write operations for a kernel submission/completion
//! ring: the operation objects, the staging queue they are submitted through,
//! and the rules by which a completion hands the buffer back to its caller.

pub mod buf;
pub mod detached;
pub mod fd;
pub mod op;
pub mod queue;
pub mod read_fixed;
pub mod write_fixed;
