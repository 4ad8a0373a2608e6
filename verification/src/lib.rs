//! Verified core of a small preemptive multitasking kernel for RV64.
//!
//! The crate holds the task multiplexing logic of the kernel as functions on
//! plain values: the task table and its round-robin scheduler, the trap and
//! system call dispatchers, the per-application stacks and the application
//! loader. Whatever touches the machine (control registers, firmware calls,
//! raw memory, the assembly routines) is left to the caller, which hands in
//! what it read and carries out what the functions here return.

pub mod config;
pub mod loader;
pub mod logging;
pub mod syscall;
pub mod task;
pub mod timer;
pub mod trap;
