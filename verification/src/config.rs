//! Platform constants.

use vstd::prelude::*;

verus! {

/// Number of application slots.
pub const MAX_APP_NUM: usize = 16;

/// Size in bytes of each per-application kernel stack.
pub const KERNEL_STACK_SIZE: usize = 8192;

/// Size in bytes of each per-application user stack.
pub const USER_STACK_SIZE: usize = 4096;

/// Address at which application 0 is loaded.
pub const APP_BASE_ADDRESS: usize = 0x8040_0000;

/// Size in bytes of the load window of each application.
pub const APP_SIZE_LIMIT: usize = 0x2_0000;

/// Number of system call identifiers that are counted per task.
pub const MAX_SYSCALL_NUM: usize = 500;

/// Frequency of the hart's cycle counter, in Hz.
pub const CLOCK_FREQ: usize = 12_500_000;

} // verus!
