//! The record that the kernel keeps of each task.

use vstd::prelude::*;
use crate::config::MAX_SYSCALL_NUM;
use crate::task::context::TaskContext;

verus! {

/// Where a task stands in its life.
#[derive(Clone, Copy, Debug, PartialEq, Eq, Structural)]
pub enum TaskStatus {
    /// The slot holds no task.
    UnInit,
    /// The task can be chosen to run.
    Ready,
    /// The task is the one that runs.
    Running,
    /// The task has ended, and never runs again.
    Exited,
}

/// Task control block.
#[derive(Clone, Copy)]
pub struct TaskControlBlock {
    /// The task's status.
    pub task_status: TaskStatus,
    /// The registers to go on with when the task is switched in.
    pub task_cx: TaskContext,
    /// Number of calls of each system call while the task was current.
    pub task_syscall_times: [u32; MAX_SYSCALL_NUM],
    /// The time in microseconds at which the task first ran, once it has.
    pub task_first_running_time: Option<usize>,
}

} // verus!
