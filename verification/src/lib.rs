//! Userspace side of a capability-based microkernel's syscall boundary:
//! a trap gateway modelled against a mock kernel, a blocking yield loop,
//! and a typed callback-subscription layer over the kernel's untyped
//! four-word calling convention.
use vstd::prelude::*;

pub mod callbacks;
pub mod echo;
pub mod kernel;
pub mod laws;
pub mod sizes;
pub mod syscalls;

verus! {

/// The designated trampoline value used to unsubscribe: registering it
/// for a descriptor means no handler is attached there.
pub const NOOP_TRAMPOLINE: usize = 0;

} // verus!
