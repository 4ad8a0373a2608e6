//! The system call dispatcher.
//!
//! A system call is decided here and carried out by the caller: the
//! `SyscallOutcome` says what to print, what to store in the task's memory,
//! and which task goes on.

pub mod fs;
pub mod process;

use vstd::prelude::*;
use crate::syscall::fs::{sys_write, write_outcome};
use crate::syscall::process::{
    sys_exit, sys_get_time, sys_task_info, sys_yield, time_val, TaskInfo, TimeVal,
};
use crate::task::table::TaskTable;
use crate::task::task::TaskStatus;
use crate::task::{update_syscall_times, Schedule, TaskManager};

verus! {

/// Identifier of the `write` system call.
pub const SYSCALL_WRITE: usize = 64;

/// Identifier of the `exit` system call.
pub const SYSCALL_EXIT: usize = 93;

/// Identifier of the `yield` system call.
pub const SYSCALL_YIELD: usize = 124;

/// Identifier of the `get_time` system call.
pub const SYSCALL_GET_TIME: usize = 169;

/// Identifier of the `task_info` system call.
pub const SYSCALL_TASK_INFO: usize = 410;

/// A condition on which the kernel cannot go on.
#[derive(Clone, Copy, Debug, PartialEq, Eq, Structural)]
pub enum KernelPanic {
    /// A task made a system call that the kernel does not have.
    UnsupportedSyscall(usize),
    /// A task wrote to a file descriptor other than standard output.
    UnsupportedFd(usize),
    /// A task wrote bytes that are no UTF-8 text.
    InvalidText,
    /// The hart trapped for a cause that the kernel does not handle.
    UnsupportedTrap { scause: usize, stval: usize },
}

/// What a system call comes to, and what is left for the caller to do.
#[derive(Clone, Copy, Debug, PartialEq, Eq)]
pub enum SyscallOutcome {
    /// `write` to standard output: print the `len` bytes at address `buf` of
    /// the task's memory, as `written_text` reads them. The call returns
    /// `len`.
    Write { buf: usize, len: usize },
    /// `exit`: report that the application exited with `exit_code`, then do
    /// what `schedule` says. The call does not return.
    Exit { exit_code: i32, schedule: Schedule },
    /// `yield`: do what `schedule` says. The call returns 0 once the task
    /// runs again.
    Yield { schedule: Schedule },
    /// `get_time`: store `time` at address `ts` of the task's memory. The
    /// call returns 0.
    GetTime { ts: usize, time: TimeVal },
    /// `task_info`: store `info` at address `ti` of the task's memory. The
    /// call returns 0.
    TaskInfo { ti: usize, info: TaskInfo },
    /// The kernel stops.
    Fatal(KernelPanic),
}

impl SyscallOutcome {
    /// The value that the system call returns to the task, if it returns.
    pub open spec fn ret_spec(self) -> Option<isize> {
        match self {
            SyscallOutcome::Write { buf, len } => Some(len as isize),
            SyscallOutcome::Yield { .. } => Some(0isize),
            SyscallOutcome::GetTime { .. } => Some(0isize),
            SyscallOutcome::TaskInfo { .. } => Some(0isize),
            SyscallOutcome::Exit { .. } => None,
            SyscallOutcome::Fatal(_) => None,
        }
    }

    /// The value that the system call returns to the task, if it returns.
    pub fn ret(&self) -> (r: Option<isize>)
        ensures
            r == self.ret_spec(),
    {
        match self {
            SyscallOutcome::Write { buf, len } => Some(#[verifier::truncate] (*len as isize)),
            SyscallOutcome::Yield { .. } => Some(0),
            SyscallOutcome::GetTime { .. } => Some(0),
            SyscallOutcome::TaskInfo { .. } => Some(0),
            SyscallOutcome::Exit { .. } => None,
            SyscallOutcome::Fatal(_) => None,
        }
    }
}

/// The table once a call of `syscall_id` by the current task was counted.
/// An identifier without a counter is not counted, and a counter that is
/// full stays as it is.
pub open spec fn counted(table: TaskTable, syscall_id: usize) -> TaskTable {
    if table.can_count(syscall_id as int) {
        table.count(syscall_id as int)
    } else {
        table
    }
}

/// What the system call `syscall_id` with the arguments `arg0`, `arg1` and
/// `arg2`, made by the current task of `table` at the time `now_us`, comes
/// to.
pub open spec fn syscall_outcome(
    table: TaskTable,
    syscall_id: usize,
    arg0: usize,
    arg1: usize,
    arg2: usize,
    now_us: usize,
) -> SyscallOutcome {
    let table = counted(table, syscall_id);
    if syscall_id == SYSCALL_WRITE {
        write_outcome(arg0, arg1, arg2)
    } else if syscall_id == SYSCALL_EXIT {
        SyscallOutcome::Exit {
            exit_code: arg0 as i32,
            schedule: table.mark_current(TaskStatus::Exited).schedule(),
        }
    } else if syscall_id == SYSCALL_YIELD {
        SyscallOutcome::Yield { schedule: table.mark_current(TaskStatus::Ready).schedule() }
    } else if syscall_id == SYSCALL_GET_TIME {
        SyscallOutcome::GetTime { ts: arg0, time: time_val(now_us) }
    } else if syscall_id == SYSCALL_TASK_INFO {
        SyscallOutcome::TaskInfo { ti: arg0, info: table.info(now_us) }
    } else {
        SyscallOutcome::Fatal(KernelPanic::UnsupportedSyscall(syscall_id))
    }
}

/// The table after the system call `syscall_id`, made by the current task of
/// `table` at the time `now_us`: the call is counted, also where it does not
/// return, and `exit` and `yield` give the hart to the next task.
pub open spec fn syscall_table(table: TaskTable, syscall_id: usize, now_us: usize) -> TaskTable {
    let table = counted(table, syscall_id);
    if syscall_id == SYSCALL_EXIT {
        table.exit_and_run_next(now_us)
    } else if syscall_id == SYSCALL_YIELD {
        table.suspend_and_run_next(now_us)
    } else {
        table
    }
}

/// Whether a task goes on after a system call with this outcome, which is
/// then the running task.
pub open spec fn resumes(outcome: SyscallOutcome) -> bool {
    match outcome {
        SyscallOutcome::Write { .. } => true,
        SyscallOutcome::GetTime { .. } => true,
        SyscallOutcome::TaskInfo { .. } => true,
        SyscallOutcome::Yield { schedule } => schedule is Switch,
        SyscallOutcome::Exit { schedule, .. } => schedule is Switch,
        SyscallOutcome::Fatal(_) => false,
    }
}

/// Counts the system call `syscall_id` for the running task, then handles
/// it. `args` are the call's arguments and `now_us` is the time in
/// microseconds.
pub fn syscall(manager: &mut TaskManager, syscall_id: usize, args: [usize; 3], now_us: usize) -> (outcome:
    SyscallOutcome)
    requires
        old(manager)@.wf(),
        old(manager)@.running(),
        old(manager)@.current_started_by(now_us),
    ensures
        outcome == syscall_outcome(
            old(manager)@,
            syscall_id,
            args[0],
            args[1],
            args[2],
            now_us,
        ),
        final(manager)@ == syscall_table(old(manager)@, syscall_id, now_us),
        final(manager)@.wf(),
        final(manager)@.follows(old(manager)@),
        resumes(outcome) ==> final(manager)@.running(),
        old(manager)@.started_by(now_us) ==> final(manager)@.started_by(now_us),
{
    update_syscall_times(manager, syscall_id);
    if syscall_id == SYSCALL_WRITE {
        sys_write(args[0], args[1], args[2])
    } else if syscall_id == SYSCALL_EXIT {
        sys_exit(manager, #[verifier::truncate] (args[0] as i32), now_us)
    } else if syscall_id == SYSCALL_YIELD {
        sys_yield(manager, now_us)
    } else if syscall_id == SYSCALL_GET_TIME {
        sys_get_time(args[0], args[1], now_us)
    } else if syscall_id == SYSCALL_TASK_INFO {
        sys_task_info(manager, args[0], now_us)
    } else {
        SyscallOutcome::Fatal(KernelPanic::UnsupportedSyscall(syscall_id))
    }
}

} // verus!
