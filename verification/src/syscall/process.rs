//! System calls on tasks and time.

use vstd::prelude::*;
use crate::config::MAX_SYSCALL_NUM;
use crate::syscall::SyscallOutcome;
use crate::task::task::TaskStatus;
use crate::task::{exit_current_and_run_next, get_task_info, suspend_current_and_run_next, TaskManager};
use crate::timer::MICRO_PER_SEC;

verus! {

/// A time as the `get_time` system call reports it.
#[derive(Clone, Copy, Debug, PartialEq, Eq)]
pub struct TimeVal {
    /// Whole seconds.
    pub sec: usize,
    /// Microseconds on top of the seconds, below one million.
    pub usec: usize,
}

/// What the `task_info` system call reports of the calling task.
#[derive(Clone, Copy, Debug, PartialEq, Eq)]
pub struct TaskInfo {
    /// The task's status.
    pub status: TaskStatus,
    /// How often the task has made each system call.
    pub syscall_times: [u32; MAX_SYSCALL_NUM],
    /// Microseconds since the task first ran.
    pub time: usize,
}

/// The time `us`, given in microseconds, in seconds and microseconds.
pub open spec fn time_val(us: usize) -> TimeVal {
    TimeVal { sec: us / MICRO_PER_SEC, usec: us % MICRO_PER_SEC }
}

/// Whether the time `a` lies before the time `b`.
pub open spec fn time_val_lt(a: TimeVal, b: TimeVal) -> bool {
    a.sec < b.sec || (a.sec == b.sec && a.usec < b.usec)
}

/// A later time in microseconds is a later time in seconds and
/// microseconds.
pub proof fn lemma_time_val_increases(earlier_us: usize, later_us: usize)
    requires
        earlier_us < later_us,
    ensures
        time_val_lt(time_val(earlier_us), time_val(later_us)),
        time_val(later_us).usec < MICRO_PER_SEC,
{
}

/// Handles `exit`: ends the running task and gives the hart to the next one
/// at the time `now_us`.
pub fn sys_exit(manager: &mut TaskManager, exit_code: i32, now_us: usize) -> (outcome:
    SyscallOutcome)
    requires
        old(manager)@.wf(),
        old(manager)@.running(),
    ensures
        outcome == (SyscallOutcome::Exit {
            exit_code,
            schedule: old(manager)@.mark_current(TaskStatus::Exited).schedule(),
        }),
        final(manager)@ == old(manager)@.exit_and_run_next(now_us),
        final(manager)@.wf(),
        final(manager)@.follows(old(manager)@),
{
    let schedule = exit_current_and_run_next(manager, now_us);
    SyscallOutcome::Exit { exit_code, schedule }
}

/// Handles `yield`: suspends the running task and gives the hart to the next
/// one at the time `now_us`.
pub fn sys_yield(manager: &mut TaskManager, now_us: usize) -> (outcome: SyscallOutcome)
    requires
        old(manager)@.wf(),
        old(manager)@.running(),
    ensures
        outcome == (SyscallOutcome::Yield {
            schedule: old(manager)@.mark_current(TaskStatus::Ready).schedule(),
        }),
        final(manager)@ == old(manager)@.suspend_and_run_next(now_us),
        final(manager)@.wf(),
        final(manager)@.running(),
        final(manager)@.follows(old(manager)@),
{
    let schedule = suspend_current_and_run_next(manager, now_us);
    SyscallOutcome::Yield { schedule }
}

/// Handles `get_time`: the time `now_us` in seconds and microseconds, to be
/// stored at address `ts` of the task's memory. The time zone argument is
/// not used.
pub fn sys_get_time(ts: usize, _tz: usize, now_us: usize) -> (outcome: SyscallOutcome)
    ensures
        outcome == (SyscallOutcome::GetTime { ts, time: time_val(now_us) }),
{
    SyscallOutcome::GetTime {
        ts,
        time: TimeVal { sec: now_us / MICRO_PER_SEC, usec: now_us % MICRO_PER_SEC },
    }
}

/// Handles `task_info`: status, counters and running time of the current task
/// at the time `now_us`, to be stored at address `ti` of the task's memory.
pub fn sys_task_info(manager: &TaskManager, ti: usize, now_us: usize) -> (outcome: SyscallOutcome)
    requires
        manager@.wf(),
        manager@.current_started_by(now_us),
    ensures
        outcome == (SyscallOutcome::TaskInfo { ti, info: manager@.info(now_us) }),
{
    SyscallOutcome::TaskInfo { ti, info: get_task_info(manager, now_us) }
}

} // verus!
