//! The task table and the round-robin scheduler.
//!
//! `TaskManager` is the table as the kernel holds it; `TaskTable` is what it
//! stands for, and the spec functions on `TaskTable` say what each operation
//! does. Nothing here switches tasks by itself: an operation that picks a
//! task returns a `Schedule`, which says between which two task contexts the
//! caller has to switch.

pub mod context;
pub mod switch;
pub mod table;
pub mod task;

pub use context::TaskContext;
pub use switch::switch;
pub use table::TaskTable;
pub use task::{TaskControlBlock, TaskStatus};

use vstd::prelude::*;
use crate::config::{KERNEL_STACK_SIZE, MAX_APP_NUM, MAX_SYSCALL_NUM};
use crate::loader::{init_app_cx, AppStacks};
use crate::syscall::process::TaskInfo;
use crate::task::table::{tcb_is_empty, tcb_is_fresh};
use crate::trap::context::TRAP_CONTEXT_SIZE;

verus! {

/// What the caller of a scheduling operation has to do next.
#[derive(Clone, Copy, Debug, PartialEq, Eq, Structural)]
pub enum Schedule {
    /// Switch from the context of task `current` to that of task `next`,
    /// which is now the running task. The two may be the same task.
    Switch { current: usize, next: usize },
    /// No task is ready: all applications have completed, and the kernel
    /// stops.
    AllCompleted,
}

/// What the kernel says when it stops because no task is left.
pub const ALL_COMPLETED: &'static str = "All applications completed!";

/// Why a task table cannot be set up.
#[derive(Clone, Copy, Debug, PartialEq, Eq, Structural)]
pub enum InitError {
    /// There is no application to run.
    NoApps,
    /// There are more applications than slots.
    TooManyApps,
}

/// The task table of the kernel: the control blocks of all slots, the
/// number of applications, and the index of the current task.
pub struct TaskManager {
    num_app: usize,
    tasks: [TaskControlBlock; MAX_APP_NUM],
    current_task: usize,
}

impl View for TaskManager {
    type V = TaskTable;

    closed spec fn view(&self) -> TaskTable {
        TaskTable {
            num_app: self.num_app as int,
            current: self.current_task as int,
            tasks: self.tasks@,
        }
    }
}

impl TaskManager {
    /// Sets up the table for `num_app` applications. For each of them it
    /// pushes the trap context that starts the application on the
    /// application's kernel stack in `stacks`, and makes the task ready to
    /// run first through the trap-return routine at address `restore`.
    /// `sstatus` is the status register as read at this moment. Refuses to
    /// set up a table for no application, or for more than there are slots,
    /// and then leaves the stacks as they were.
    pub fn new(num_app: usize, stacks: &mut AppStacks, sstatus: usize, restore: usize) -> (r:
        Result<TaskManager, InitError>)
        requires
            old(stacks).wf(),
        ensures
            r is Ok <==> 1 <= num_app <= MAX_APP_NUM,
            r matches Err(e) ==> (e == InitError::NoApps <==> num_app == 0) && *final(stacks)
                == *old(stacks),
            r matches Ok(manager) ==> {
                &&& manager@.wf()
                &&& !manager@.running()
                &&& manager@.is_initial(num_app as int, *old(stacks), restore)
                &&& final(stacks).wf()
                &&& final(stacks).same_layout(old(stacks))
                &&& final(stacks).holds_init_contexts(num_app as int, sstatus)
                &&& forall|i: int|
                    num_app <= i < MAX_APP_NUM ==> final(stacks).kernel_stack(i) == old(
                        stacks,
                    ).kernel_stack(i)
            },
    {
        if num_app == 0 {
            return Err(InitError::NoApps);
        }
        if num_app > MAX_APP_NUM {
            return Err(InitError::TooManyApps);
        }
        let ghost stacks0 = *stacks;
        let mut tasks = [TaskControlBlock {
            task_status: TaskStatus::UnInit,
            task_cx: TaskContext::zero_init(),
            task_syscall_times: [0; MAX_SYSCALL_NUM],
            task_first_running_time: None,
        }; MAX_APP_NUM];
        let mut i: usize = 0;
        while i < num_app
            invariant
                i <= num_app <= MAX_APP_NUM,
                stacks0.wf(),
                stacks.wf(),
                stacks.same_layout(&stacks0),
                stacks.holds_init_contexts(i as int, sstatus),
                forall|j: int|
                    i <= j < MAX_APP_NUM ==> stacks.kernel_stack(j) == stacks0.kernel_stack(j),
                forall|j: int|
                    0 <= j < i ==> tcb_is_fresh(
                        #[trigger] tasks[j],
                        (stacks0.kernel_stack(j).base_addr() + KERNEL_STACK_SIZE
                            - TRAP_CONTEXT_SIZE) as usize,
                        restore,
                    ),
                forall|j: int| i <= j < MAX_APP_NUM ==> tcb_is_empty(#[trigger] tasks[j]),
            decreases num_app - i,
        {
            let ptr = init_app_cx(stacks, i, sstatus);
            tasks[i].task_cx = TaskContext::goto_restore(ptr, restore);
            tasks[i].task_status = TaskStatus::Ready;
            i += 1;
        }
        let manager = TaskManager { num_app, tasks, current_task: 0 };
        Ok(manager)
    }

    /// Number of applications.
    pub fn num_app(&self) -> (n: usize)
        ensures
            n == self@.num_app,
    {
        self.num_app
    }

    /// Index of the task that runs, or ran last.
    pub fn current_task(&self) -> (id: usize)
        ensures
            id == self@.current,
    {
        self.current_task
    }

    /// The control block of slot `id`.
    pub fn task(&self, id: usize) -> (tcb: &TaskControlBlock)
        requires
            id < MAX_APP_NUM,
        ensures
            *tcb == self@.tasks[id as int],
    {
        &self.tasks[id]
    }

    /// Whether a task is running.
    pub fn is_running(&self) -> (running: bool)
        requires
            self@.wf(),
        ensures
            running == self@.running(),
    {
        self.tasks[self.current_task].task_status == TaskStatus::Running
    }

    /// Whether the current task first ran at or before the time `now_us`.
    pub fn current_started_by(&self, now_us: usize) -> (started: bool)
        requires
            self@.wf(),
        ensures
            started == self@.current_started_by(now_us),
    {
        match self.tasks[self.current_task].task_first_running_time {
            Some(first) => first <= now_us,
            None => false,
        }
    }

    /// Gives the hart to task 0 at the time `now_us`: the task becomes the
    /// running one, and `now_us` the time of its first run unless it has
    /// one. Returns the context to switch to, from a context that is thrown
    /// away.
    pub fn run_first_task(&mut self, now_us: usize) -> (next_task_cx: TaskContext)
        requires
            old(self)@.wf(),
            !old(self)@.running(),
            old(self)@.current == 0,
            old(self)@.is_ready(0),
        ensures
            final(self)@ == old(self)@.dispatch(0, now_us),
            final(self)@.wf(),
            final(self)@.running(),
            final(self)@.follows(old(self)@),
            next_task_cx == old(self)@.tasks[0].task_cx,
    {
        self.tasks[0].task_status = TaskStatus::Running;
        if self.tasks[0].task_first_running_time.is_none() {
            self.tasks[0].task_first_running_time = Some(now_us);
        }
        assert(self@.tasks =~= old(self)@.dispatch(0, now_us).tasks);
        self.tasks[0].task_cx
    }

    /// Makes the running task ready again.
    pub fn mark_current_suspended(&mut self)
        requires
            old(self)@.wf(),
            old(self)@.running(),
        ensures
            final(self)@ == old(self)@.mark_current(TaskStatus::Ready),
            final(self)@.wf(),
            !final(self)@.running(),
            final(self)@.follows(old(self)@),
    {
        let current = self.current_task;
        self.tasks[current].task_status = TaskStatus::Ready;
    }

    /// Ends the running task.
    pub fn mark_current_exited(&mut self)
        requires
            old(self)@.wf(),
            old(self)@.running(),
        ensures
            final(self)@ == old(self)@.mark_current(TaskStatus::Exited),
            final(self)@.wf(),
            !final(self)@.running(),
            final(self)@.follows(old(self)@),
    {
        let current = self.current_task;
        self.tasks[current].task_status = TaskStatus::Exited;
    }

    /// The task to run next: the first ready one in the circular order of
    /// the applications that starts behind the current task and ends with
    /// it. `None` where no task is ready.
    pub fn find_next_task(&self) -> (next: Option<usize>)
        requires
            self@.wf(),
        ensures
            next matches Some(id) ==> self@.next_task() == Some(id as int) && self@.is_next(
                id as int,
            ),
            next is None ==> self@.next_task() is None && forall|i: int| !self@.is_ready(i),
    {
        let current = self.current_task;
        let mut k: usize = 1;
        while k <= self.num_app
            invariant
                self@.wf(),
                current == self@.current,
                1 <= k <= self.num_app + 1,
                forall|j: int| 1 <= j < k ==> !self@.is_ready(#[trigger] self@.successor(j)),
            decreases self.num_app + 1 - k,
        {
            let id = (current + k) % self.num_app;
            if self.tasks[id].task_status == TaskStatus::Ready {
                proof {
                    self@.lemma_next_at(k as int);
                }
                return Some(id);
            }
            k += 1;
        }
        proof {
            self@.lemma_none_ready();
        }
        None
    }

    /// Gives the hart to the next task at the time `now_us`, while no task
    /// runs: the task becomes the current and running one, and `now_us` the
    /// time of its first run unless it has one. Where no task is ready the
    /// table stays as it is, and the result says that all applications have
    /// completed.
    pub fn run_next_task(&mut self, now_us: usize) -> (schedule: Schedule)
        requires
            old(self)@.wf(),
            !old(self)@.running(),
        ensures
            final(self)@ == old(self)@.run_next(now_us),
            schedule == old(self)@.schedule(),
            final(self)@.wf(),
            final(self)@.follows(old(self)@),
            schedule is Switch <==> final(self)@.running(),
    {
        match self.find_next_task() {
            Some(next) => {
                let current = self.current_task;
                self.tasks[next].task_status = TaskStatus::Running;
                if self.tasks[next].task_first_running_time.is_none() {
                    self.tasks[next].task_first_running_time = Some(now_us);
                }
                self.current_task = next;
                assert(self@.tasks =~= old(self)@.dispatch(next as int, now_us).tasks);
                Schedule::Switch { current, next }
            },
            None => Schedule::AllCompleted,
        }
    }

    /// Counts one call of system call `syscall_id` for the current task.
    /// Returns whether it did: the table has no counter for an identifier of
    /// `MAX_SYSCALL_NUM` or more, and a counter that has reached the largest
    /// number it can hold stays there.
    pub fn update_syscall_times(&mut self, syscall_id: usize) -> (counted: bool)
        requires
            old(self)@.wf(),
        ensures
            counted <==> old(self)@.can_count(syscall_id as int),
            counted ==> final(self)@ == old(self)@.count(syscall_id as int),
            !counted ==> final(self)@ == old(self)@,
            final(self)@.wf(),
            final(self)@.running() == old(self)@.running(),
            final(self)@.follows(old(self)@),
    {
        broadcast use vstd::array::group_array_axioms;

        let current = self.current_task;
        if syscall_id >= MAX_SYSCALL_NUM || self.tasks[current].task_syscall_times[syscall_id]
            == u32::MAX {
            return false;
        }
        self.tasks[current].task_syscall_times[syscall_id] += 1;
        proof {
            let expected = old(self)@.count(syscall_id as int);
            assert(self@.tasks[current as int].task_syscall_times
                =~= expected.tasks[current as int].task_syscall_times);
        }
        true
    }

    /// Status and system call counters of the current task, and the time in
    /// microseconds from its first run to `now_us`.
    pub fn get_task_info(&self, now_us: usize) -> (info: TaskInfo)
        requires
            self@.wf(),
            self@.current_started_by(now_us),
        ensures
            info == self@.info(now_us),
    {
        let tcb = &self.tasks[self.current_task];
        let first = match tcb.task_first_running_time {
            Some(t) => t,
            None => now_us,
        };
        TaskInfo {
            status: tcb.task_status,
            syscall_times: tcb.task_syscall_times,
            time: now_us - first,
        }
    }
}

/// Gives the hart to task 0 of `manager` at the time `now_us`, and returns
/// the context to switch to.
pub fn run_first_task(manager: &mut TaskManager, now_us: usize) -> (next_task_cx: TaskContext)
    requires
        old(manager)@.wf(),
        !old(manager)@.running(),
        old(manager)@.current == 0,
        old(manager)@.is_ready(0),
    ensures
        final(manager)@ == old(manager)@.dispatch(0, now_us),
        final(manager)@.wf(),
        final(manager)@.running(),
        final(manager)@.follows(old(manager)@),
        next_task_cx == old(manager)@.tasks[0].task_cx,
{
    manager.run_first_task(now_us)
}

/// Suspends the running task and gives the hart to the next one at the time
/// `now_us`, which is the same task again where no other is ready.
pub fn suspend_current_and_run_next(manager: &mut TaskManager, now_us: usize) -> (schedule:
    Schedule)
    requires
        old(manager)@.wf(),
        old(manager)@.running(),
    ensures
        final(manager)@ == old(manager)@.suspend_and_run_next(now_us),
        schedule == old(manager)@.mark_current(TaskStatus::Ready).schedule(),
        schedule is Switch,
        final(manager)@.wf(),
        final(manager)@.running(),
        final(manager)@.follows(old(manager)@),
{
    proof {
        manager@.lemma_suspend_and_run_next(now_us);
    }
    manager.mark_current_suspended();
    manager.run_next_task(now_us)
}

/// Ends the running task and gives the hart to the next one at the time
/// `now_us`. Where no task is ready, all applications have completed.
pub fn exit_current_and_run_next(manager: &mut TaskManager, now_us: usize) -> (schedule: Schedule)
    requires
        old(manager)@.wf(),
        old(manager)@.running(),
    ensures
        final(manager)@ == old(manager)@.exit_and_run_next(now_us),
        schedule == old(manager)@.mark_current(TaskStatus::Exited).schedule(),
        schedule is AllCompleted <==> forall|i: int| !old(manager)@.is_ready(i),
        schedule is Switch <==> final(manager)@.running(),
        final(manager)@.wf(),
        final(manager)@.follows(old(manager)@),
{
    proof {
        manager@.lemma_exit_and_run_next(now_us);
    }
    manager.mark_current_exited();
    manager.run_next_task(now_us)
}

/// Counts one call of system call `syscall_id` for the current task of
/// `manager`, and returns whether it did.
pub fn update_syscall_times(manager: &mut TaskManager, syscall_id: usize) -> (counted: bool)
    requires
        old(manager)@.wf(),
    ensures
        counted <==> old(manager)@.can_count(syscall_id as int),
        counted ==> final(manager)@ == old(manager)@.count(syscall_id as int),
        !counted ==> final(manager)@ == old(manager)@,
        final(manager)@.wf(),
        final(manager)@.running() == old(manager)@.running(),
        final(manager)@.follows(old(manager)@),
{
    manager.update_syscall_times(syscall_id)
}

/// Status, counters and running time of the current task of `manager` at the
/// time `now_us`.
pub fn get_task_info(manager: &TaskManager, now_us: usize) -> (info: TaskInfo)
    requires
        manager@.wf(),
        manager@.current_started_by(now_us),
    ensures
        info == manager@.info(now_us),
{
    manager.get_task_info(now_us)
}

} // verus!
