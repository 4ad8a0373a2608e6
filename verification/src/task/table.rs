//! The task table as a mathematical value, and what holds of it.

use vstd::prelude::*;
use vstd::arithmetic::div_mod::{lemma_mod_add_multiples_vanish, lemma_small_mod};
use crate::config::{KERNEL_STACK_SIZE, MAX_APP_NUM, MAX_SYSCALL_NUM};
use crate::loader::AppStacks;
use crate::trap::context::TRAP_CONTEXT_SIZE;
use crate::syscall::process::TaskInfo;
use crate::task::task::{TaskControlBlock, TaskStatus};
use crate::task::Schedule;

verus! {

/// The task table as a mathematical value.
pub struct TaskTable {
    /// Number of applications.
    pub num_app: int,
    /// Index of the task that runs, or ran last.
    pub current: int,
    /// The control blocks of all `MAX_APP_NUM` slots.
    pub tasks: Seq<TaskControlBlock>,
}

/// Whether the control block `new` can come after `old` in the life of one
/// task: no system call counter has gone down, the time of the first run, once
/// set, has stayed, an exited task has stayed exited, and a slot holds a task
/// after if and only if it held one before.
pub open spec fn tcb_follows(new: TaskControlBlock, old: TaskControlBlock) -> bool {
    &&& forall|id: int|
        0 <= id < MAX_SYSCALL_NUM ==> old.task_syscall_times[id]
            <= #[trigger] new.task_syscall_times[id]
    &&& old.task_first_running_time is Some ==> new.task_first_running_time
        == old.task_first_running_time
    &&& old.task_status == TaskStatus::Exited ==> new.task_status == TaskStatus::Exited
    &&& (old.task_status == TaskStatus::UnInit) == (new.task_status == TaskStatus::UnInit)
}

/// Whether `tcb` is the control block of a slot that holds no task.
pub open spec fn tcb_is_empty(tcb: TaskControlBlock) -> bool {
    &&& tcb.task_status == TaskStatus::UnInit
    &&& tcb.task_cx.is_zero()
    &&& tcb.task_first_running_time is None
    &&& forall|id: int| 0 <= id < MAX_SYSCALL_NUM ==> tcb.task_syscall_times[id] == 0
}

/// Whether `tcb` is the control block of a task that has not run yet, and
/// whose first run goes through the routine at `restore` with the kernel
/// stack pointer at `kstack_ptr`.
pub open spec fn tcb_is_fresh(tcb: TaskControlBlock, kstack_ptr: usize, restore: usize) -> bool {
    &&& tcb.task_status == TaskStatus::Ready
    &&& tcb.task_cx.starts_at(kstack_ptr, restore)
    &&& tcb.task_first_running_time is None
    &&& forall|id: int| 0 <= id < MAX_SYSCALL_NUM ==> tcb.task_syscall_times[id] == 0
}

impl TaskTable {
    /// Whether this is the table that the kernel starts with for `num_app`
    /// applications whose stacks are `stacks`: task 0 is current, each
    /// application is a fresh task whose kernel stack pointer lies one trap
    /// context below the top of its kernel stack, and the other slots are
    /// empty.
    pub open spec fn is_initial(self, num_app: int, stacks: AppStacks, restore: usize) -> bool {
        &&& self.tasks.len() == MAX_APP_NUM
        &&& self.num_app == num_app
        &&& self.current == 0
        &&& forall|i: int|
            0 <= i < num_app ==> tcb_is_fresh(
                #[trigger] self.tasks[i],
                (stacks.kernel_stack(i).base_addr() + KERNEL_STACK_SIZE - TRAP_CONTEXT_SIZE) as usize,
                restore,
            )
        &&& forall|i: int| num_app <= i < MAX_APP_NUM ==> tcb_is_empty(#[trigger] self.tasks[i])
    }

    /// The invariant of the table: the current task is one of the
    /// applications; the slots of the applications, and no others, hold a
    /// task; only the current task can be `Running`, and a running task has
    /// the time of its first run recorded; an empty slot has none.
    pub open spec fn wf(self) -> bool {
        &&& self.tasks.len() == MAX_APP_NUM
        &&& 1 <= self.num_app <= MAX_APP_NUM
        &&& 0 <= self.current < self.num_app
        &&& forall|i: int|
            0 <= i < MAX_APP_NUM ==> ((#[trigger] self.tasks[i]).task_status == TaskStatus::UnInit
                <==> i >= self.num_app)
        &&& forall|i: int|
            0 <= i < MAX_APP_NUM && (#[trigger] self.tasks[i]).task_status == TaskStatus::Running
                ==> i == self.current && self.tasks[i].task_first_running_time is Some
        &&& forall|i: int|
            0 <= i < MAX_APP_NUM && (#[trigger] self.tasks[i]).task_status == TaskStatus::UnInit
                ==> self.tasks[i].task_first_running_time is None
    }

    /// Whether a task is running: the current one.
    pub open spec fn running(self) -> bool {
        self.tasks[self.current].task_status == TaskStatus::Running
    }

    /// Whether task `i` is one of the applications and ready to run.
    pub open spec fn is_ready(self, i: int) -> bool {
        0 <= i < self.num_app && self.tasks[i].task_status == TaskStatus::Ready
    }

    /// The task that lies `k` places behind the current one in the circular
    /// order of the applications.
    pub open spec fn successor(self, k: int) -> int {
        (self.current + k) % self.num_app
    }

    /// Whether task `id` is the one to run next: going round from the task
    /// behind the current one, and ending with the current one itself, it is
    /// the first that is ready.
    pub open spec fn is_next(self, id: int) -> bool {
        exists|k: int|
            {
                &&& 1 <= k <= self.num_app
                &&& id == #[trigger] self.successor(k)
                &&& self.is_ready(id)
                &&& forall|j: int| 1 <= j < k ==> !self.is_ready(#[trigger] self.successor(j))
            }
    }

    /// The task to run next, if any is ready.
    pub open spec fn next_task(self) -> Option<int> {
        if exists|id: int| self.is_next(id) {
            Some(choose|id: int| self.is_next(id))
        } else {
            None
        }
    }

    /// The table with the status of the current task set to `status`.
    pub open spec fn mark_current(self, status: TaskStatus) -> TaskTable {
        TaskTable {
            tasks: self.tasks.update(
                self.current,
                TaskControlBlock { task_status: status, ..self.tasks[self.current] },
            ),
            ..self
        }
    }

    /// The table after task `next` was given the hart at time `now_us`: it is
    /// the current task and `Running`, and `now_us` is recorded as the time of
    /// its first run unless it ran before.
    pub open spec fn dispatch(self, next: int, now_us: usize) -> TaskTable {
        let tcb = self.tasks[next];
        TaskTable {
            current: next,
            tasks: self.tasks.update(
                next,
                TaskControlBlock {
                    task_status: TaskStatus::Running,
                    task_first_running_time: if tcb.task_first_running_time is Some {
                        tcb.task_first_running_time
                    } else {
                        Some(now_us)
                    },
                    ..tcb
                },
            ),
            ..self
        }
    }

    /// The table after the next task, if there is one, was given the hart at
    /// time `now_us`.
    pub open spec fn run_next(self, now_us: usize) -> TaskTable {
        match self.next_task() {
            Some(next) => self.dispatch(next, now_us),
            None => self,
        }
    }

    /// What the caller has to do once the next task was picked.
    pub open spec fn schedule(self) -> Schedule {
        match self.next_task() {
            Some(next) => Schedule::Switch { current: self.current as usize, next: next as usize },
            None => Schedule::AllCompleted,
        }
    }

    /// The table after the running task was suspended and the next task given
    /// the hart.
    pub open spec fn suspend_and_run_next(self, now_us: usize) -> TaskTable {
        self.mark_current(TaskStatus::Ready).run_next(now_us)
    }

    /// The table after the running task exited and the next task was given
    /// the hart.
    pub open spec fn exit_and_run_next(self, now_us: usize) -> TaskTable {
        self.mark_current(TaskStatus::Exited).run_next(now_us)
    }

    /// Whether the counter of system call `syscall_id` of the current task
    /// can be incremented: it exists and is not at its maximum.
    pub open spec fn can_count(self, syscall_id: int) -> bool {
        &&& 0 <= syscall_id < MAX_SYSCALL_NUM
        &&& self.tasks[self.current].task_syscall_times[syscall_id] < u32::MAX
    }

    /// The table with the counter of system call `syscall_id` of the current
    /// task incremented.
    pub open spec fn count(self, syscall_id: int) -> TaskTable {
        let tcb = self.tasks[self.current];
        TaskTable {
            tasks: self.tasks.update(
                self.current,
                TaskControlBlock {
                    task_syscall_times: vstd::array::spec_array_update(
                        tcb.task_syscall_times,
                        syscall_id,
                        (tcb.task_syscall_times[syscall_id] + 1) as u32,
                    ),
                    ..tcb
                },
            ),
            ..self
        }
    }

    /// Whether the current task first ran at or before the time `now_us`.
    pub open spec fn current_started_by(self, now_us: usize) -> bool {
        self.tasks[self.current].task_first_running_time matches Some(t) && t <= now_us
    }

    /// Whether no task first ran after the time `now_us`.
    pub open spec fn started_by(self, now_us: usize) -> bool {
        forall|i: int|
            0 <= i < self.tasks.len() ==> ((#[trigger] self.tasks[i]).task_first_running_time
                matches Some(t) ==> t <= now_us)
    }

    /// Status, counters and running time of the current task at the time
    /// `now_us`: the time since the task first ran, whether it ran all the
    /// while or not.
    pub open spec fn info(self, now_us: usize) -> TaskInfo {
        let tcb = self.tasks[self.current];
        TaskInfo {
            status: tcb.task_status,
            syscall_times: tcb.task_syscall_times,
            time: (now_us - tcb.task_first_running_time->0) as usize,
        }
    }

    /// Whether this table can come after `before` in the life of one system:
    /// each control block follows the one it was.
    pub open spec fn follows(self, before: TaskTable) -> bool {
        &&& self.num_app == before.num_app
        &&& self.tasks.len() == before.tasks.len()
        &&& forall|i: int|
            0 <= i < self.tasks.len() ==> tcb_follows(#[trigger] self.tasks[i], before.tasks[i])
    }
}


/// Each control block follows itself.
pub proof fn lemma_tcb_follows_reflexive(tcb: TaskControlBlock)
    ensures
        tcb_follows(tcb, tcb),
{
}

/// What follows a control block that follows a third follows the third.
pub proof fn lemma_tcb_follows_transitive(
    last: TaskControlBlock,
    middle: TaskControlBlock,
    first: TaskControlBlock,
)
    requires
        tcb_follows(last, middle),
        tcb_follows(middle, first),
    ensures
        tcb_follows(last, first),
{
    assert forall|id: int| 0 <= id < MAX_SYSCALL_NUM implies first.task_syscall_times[id]
        <= #[trigger] last.task_syscall_times[id] by {
        assert(middle.task_syscall_times[id] <= last.task_syscall_times[id]);
        assert(first.task_syscall_times[id] <= middle.task_syscall_times[id]);
    }
}

impl TaskTable {
    /// Every table follows itself.
    pub proof fn lemma_follows_reflexive(self)
        ensures
            self.follows(self),
    {
    }

    /// Over any number of steps, counters only grow, the time of a first run
    /// stays once it is set, and an exited task stays exited: a table that
    /// follows one which follows `first` follows `first`.
    pub proof fn lemma_follows_transitive(self, middle: TaskTable, first: TaskTable)
        requires
            self.follows(middle),
            middle.follows(first),
        ensures
            self.follows(first),
    {
        assert forall|i: int| 0 <= i < self.tasks.len() implies tcb_follows(
            #[trigger] self.tasks[i],
            first.tasks[i],
        ) by {
            assert(tcb_follows(self.tasks[i], middle.tasks[i]));
            assert(tcb_follows(middle.tasks[i], first.tasks[i]));
            lemma_tcb_follows_transitive(self.tasks[i], middle.tasks[i], first.tasks[i]);
        }
    }

    /// At most one task is running: where the current task runs, it is the
    /// only one that does, and where it does not, none does.
    pub proof fn lemma_one_running(self)
        requires
            self.wf(),
        ensures
            self.running() ==> forall|i: int|
                0 <= i < MAX_APP_NUM ==> ((#[trigger] self.tasks[i]).task_status
                    == TaskStatus::Running <==> i == self.current),
            !self.running() ==> forall|i: int|
                0 <= i < MAX_APP_NUM ==> (#[trigger] self.tasks[i]).task_status
                    != TaskStatus::Running,
    {
    }

    /// The circular order wraps round at the number of applications.
    pub proof fn lemma_successor(self, k: int)
        requires
            self.wf(),
            0 <= k <= self.num_app,
        ensures
            0 <= self.successor(k) < self.num_app,
            self.current + k < self.num_app ==> self.successor(k) == self.current + k,
            self.current + k >= self.num_app ==> self.successor(k) == self.current + k
                - self.num_app,
    {
        let n = self.num_app;
        let x = self.current + k;
        if x < n {
            lemma_small_mod(x as nat, n as nat);
        } else {
            lemma_mod_add_multiples_vanish(x - n, n);
            lemma_small_mod((x - n) as nat, n as nat);
        }
    }

    /// Every application lies between one and `num_app` places behind the
    /// current task.
    pub proof fn lemma_successor_covers(self, i: int) -> (k: int)
        requires
            self.wf(),
            0 <= i < self.num_app,
        ensures
            1 <= k <= self.num_app,
            self.successor(k) == i,
    {
        let k = if i > self.current {
            i - self.current
        } else {
            i + self.num_app - self.current
        };
        self.lemma_successor(k);
        k
    }

    /// The round-robin order picks one task and no other.
    pub proof fn lemma_next_unique(self, a: int, b: int)
        requires
            self.is_next(a),
            self.is_next(b),
        ensures
            a == b,
    {
        let ka = choose|k: int|
            {
                &&& 1 <= k <= self.num_app
                &&& a == #[trigger] self.successor(k)
                &&& self.is_ready(a)
                &&& forall|j: int| 1 <= j < k ==> !self.is_ready(#[trigger] self.successor(j))
            };
        let kb = choose|k: int|
            {
                &&& 1 <= k <= self.num_app
                &&& b == #[trigger] self.successor(k)
                &&& self.is_ready(b)
                &&& forall|j: int| 1 <= j < k ==> !self.is_ready(#[trigger] self.successor(j))
            };
        if ka < kb {
            assert(!self.is_ready(self.successor(ka)));
        } else if kb < ka {
            assert(!self.is_ready(self.successor(kb)));
        }
    }

    /// The task that the round-robin order picks is the next task.
    pub proof fn lemma_next_task(self, id: int)
        requires
            self.is_next(id),
        ensures
            self.next_task() == Some(id),
    {
        let chosen = choose|id: int| self.is_next(id);
        self.lemma_next_unique(chosen, id);
    }

    /// The task `k` places behind the current one is the next task where it is
    /// ready and none of those before it is.
    pub proof fn lemma_next_at(self, k: int)
        requires
            1 <= k <= self.num_app,
            self.is_ready(self.successor(k)),
            forall|j: int| 1 <= j < k ==> !self.is_ready(#[trigger] self.successor(j)),
        ensures
            self.next_task() == Some(self.successor(k)),
    {
        assert(self.is_next(self.successor(k)));
        self.lemma_next_task(self.successor(k));
    }

    /// Going round from the `k`-th task behind the current one, none before
    /// it being ready, either finds the next task or finds none ready.
    proof fn lemma_scan(self, k: int)
        requires
            self.wf(),
            1 <= k <= self.num_app + 1,
            forall|j: int| 1 <= j < k ==> !self.is_ready(#[trigger] self.successor(j)),
        ensures
            (exists|id: int| self.is_next(id)) || forall|j: int|
                1 <= j <= self.num_app ==> !self.is_ready(#[trigger] self.successor(j)),
        decreases self.num_app + 1 - k,
    {
        if k <= self.num_app {
            if self.is_ready(self.successor(k)) {
                assert(self.is_next(self.successor(k)));
            } else {
                self.lemma_scan(k + 1);
            }
        }
    }

    /// Where none of the tasks behind the current one, up to the current one
    /// itself, is ready, no task is ready and there is no next task.
    pub proof fn lemma_none_ready(self)
        requires
            self.wf(),
            forall|j: int| 1 <= j <= self.num_app ==> !self.is_ready(#[trigger] self.successor(j)),
        ensures
            self.next_task() is None,
            forall|i: int| !self.is_ready(i),
    {
        assert forall|i: int| !self.is_ready(i) by {
            if self.is_ready(i) {
                let k = self.lemma_successor_covers(i);
                assert(!self.is_ready(self.successor(k)));
            }
        }
    }

    /// There is a next task if and only if some task is ready, and the next
    /// task is a ready one.
    pub proof fn lemma_next_task_exists(self)
        requires
            self.wf(),
        ensures
            self.next_task() is None <==> forall|i: int| !self.is_ready(i),
            self.next_task() matches Some(id) ==> self.is_next(id) && self.is_ready(id),
    {
        if exists|id: int| self.is_next(id) {
            let id = choose|id: int| self.is_next(id);
            assert(self.is_ready(id));
        } else {
            self.lemma_scan(1);
            self.lemma_none_ready();
        }
    }

    /// Where only one task is ready, it is the next task, wherever the
    /// current task lies.
    pub proof fn lemma_single_ready_chosen(self, only: int)
        requires
            self.wf(),
            self.is_ready(only),
            forall|i: int| i != only ==> !self.is_ready(i),
        ensures
            self.next_task() == Some(only),
    {
        self.lemma_next_task_exists();
    }

    /// The table that the kernel starts with is well formed, and no task
    /// runs in it.
    pub proof fn lemma_initial(self, num_app: int, stacks: AppStacks, restore: usize)
        requires
            self.is_initial(num_app, stacks, restore),
            1 <= num_app <= MAX_APP_NUM,
        ensures
            self.wf(),
            !self.running(),
            forall|now_us: usize| #[trigger] self.started_by(now_us),
            forall|i: int| 0 <= i < num_app ==> self.is_ready(i),
    {
        assert forall|i: int| 0 <= i < MAX_APP_NUM implies ((
        #[trigger] self.tasks[i]).task_status == TaskStatus::UnInit <==> i >= self.num_app) by {
            if i < num_app {
                assert(tcb_is_fresh(
                    self.tasks[i],
                    (stacks.kernel_stack(i).base_addr() + KERNEL_STACK_SIZE
                        - TRAP_CONTEXT_SIZE) as usize,
                    restore,
                ));
            } else {
                assert(tcb_is_empty(self.tasks[i]));
            }
        }
        assert forall|i: int| 0 <= i < MAX_APP_NUM implies (#[trigger] self.tasks[i]).task_status
            != TaskStatus::Running && self.tasks[i].task_first_running_time is None by {
            if i < num_app {
                assert(tcb_is_fresh(
                    self.tasks[i],
                    (stacks.kernel_stack(i).base_addr() + KERNEL_STACK_SIZE
                        - TRAP_CONTEXT_SIZE) as usize,
                    restore,
                ));
            } else {
                assert(tcb_is_empty(self.tasks[i]));
            }
        }
    }

    /// Suspending or ending the running task keeps the table well formed and
    /// leaves no task running.
    pub proof fn lemma_mark_current(self, status: TaskStatus)
        requires
            self.wf(),
            self.running(),
            status == TaskStatus::Ready || status == TaskStatus::Exited,
        ensures
            self.mark_current(status).wf(),
            !self.mark_current(status).running(),
            self.mark_current(status).follows(self),
            forall|now_us: usize|
                self.started_by(now_us) ==> #[trigger] self.mark_current(status).started_by(
                    now_us,
                ),
    {
        let after = self.mark_current(status);
        assert forall|i: int| 0 <= i < after.tasks.len() implies tcb_follows(
            #[trigger] after.tasks[i],
            self.tasks[i],
        ) by {
            lemma_tcb_follows_reflexive(self.tasks[i]);
        }
        assert forall|now_us: usize| self.started_by(now_us) implies #[trigger] after.started_by(
            now_us,
        ) by {
            assert forall|i: int| 0 <= i < after.tasks.len() implies ((
            #[trigger] after.tasks[i]).task_first_running_time matches Some(t) ==> t <= now_us) by {
                assert(self.tasks[i].task_first_running_time == after.tasks[i].task_first_running_time);
            }
        }
    }

    /// Giving the hart to a ready task while none runs keeps the table well
    /// formed and makes that task the running one.
    pub proof fn lemma_dispatch(self, next: int, now_us: usize)
        requires
            self.wf(),
            !self.running(),
            self.is_ready(next),
        ensures
            self.dispatch(next, now_us).wf(),
            self.dispatch(next, now_us).running(),
            self.dispatch(next, now_us).current == next,
            self.dispatch(next, now_us).follows(self),
            self.started_by(now_us) ==> self.dispatch(next, now_us).started_by(now_us),
    {
        let after = self.dispatch(next, now_us);
        assert forall|i: int| 0 <= i < after.tasks.len() implies tcb_follows(
            #[trigger] after.tasks[i],
            self.tasks[i],
        ) by {
            lemma_tcb_follows_reflexive(self.tasks[i]);
        }
        if self.started_by(now_us) {
            assert forall|i: int| 0 <= i < after.tasks.len() implies ((
            #[trigger] after.tasks[i]).task_first_running_time matches Some(t) ==> t <= now_us) by {
                if i != next {
                    assert(self.tasks[i].task_first_running_time
                        == after.tasks[i].task_first_running_time);
                }
            }
        }
    }

    /// Picking the next task while none runs keeps the table well formed.
    /// Where a task was ready, the table says to switch to it and it is the
    /// one running task; where none was, the table is as before.
    pub proof fn lemma_run_next(self, now_us: usize)
        requires
            self.wf(),
            !self.running(),
        ensures
            self.run_next(now_us).wf(),
            self.run_next(now_us).follows(self),
            self.started_by(now_us) ==> self.run_next(now_us).started_by(now_us),
            self.schedule() is AllCompleted <==> forall|i: int| !self.is_ready(i),
            self.schedule() is AllCompleted ==> self.run_next(now_us) == self,
            self.schedule() matches Schedule::Switch { current, next } ==> {
                &&& current == self.current
                &&& self.is_next(next as int)
                &&& self.run_next(now_us) == self.dispatch(next as int, now_us)
                &&& self.run_next(now_us).running()
                &&& self.run_next(now_us).current == next
            },
    {
        self.lemma_next_task_exists();
        match self.next_task() {
            Some(next) => {
                self.lemma_dispatch(next, now_us);
            },
            None => {
                self.lemma_follows_reflexive();
            },
        }
    }

    /// After the running task is suspended a task runs again, one task and
    /// no other: the suspended task is ready itself, so there is always a
    /// task to switch to.
    pub proof fn lemma_suspend_and_run_next(self, now_us: usize)
        requires
            self.wf(),
            self.running(),
        ensures
            self.suspend_and_run_next(now_us).wf(),
            self.suspend_and_run_next(now_us).running(),
            self.suspend_and_run_next(now_us).follows(self),
            self.started_by(now_us) ==> self.suspend_and_run_next(now_us).started_by(now_us),
            self.mark_current(TaskStatus::Ready).schedule() is Switch,
    {
        let suspended = self.mark_current(TaskStatus::Ready);
        self.lemma_mark_current(TaskStatus::Ready);
        suspended.lemma_run_next(now_us);
        assert(suspended.is_ready(self.current));
        self.suspend_and_run_next(now_us).lemma_follows_transitive(suspended, self);
    }

    /// After the running task exits, either a task runs again, one task and
    /// no other, or no task was ready and all applications have completed.
    pub proof fn lemma_exit_and_run_next(self, now_us: usize)
        requires
            self.wf(),
            self.running(),
        ensures
            self.exit_and_run_next(now_us).wf(),
            self.exit_and_run_next(now_us).follows(self),
            self.started_by(now_us) ==> self.exit_and_run_next(now_us).started_by(now_us),
            self.exit_and_run_next(now_us).tasks[self.current].task_status == TaskStatus::Exited,
            self.mark_current(TaskStatus::Exited).schedule() is AllCompleted <==> forall|i: int|
                !self.is_ready(i),
            self.mark_current(TaskStatus::Exited).schedule() is Switch ==> self.exit_and_run_next(
                now_us,
            ).running(),
            self.mark_current(TaskStatus::Exited).schedule() is AllCompleted
                ==> !self.exit_and_run_next(now_us).running(),
    {
        let exited = self.mark_current(TaskStatus::Exited);
        self.lemma_mark_current(TaskStatus::Exited);
        exited.lemma_run_next(now_us);
        self.exit_and_run_next(now_us).lemma_follows_transitive(exited, self);
        assert forall|i: int| exited.is_ready(i) == self.is_ready(i) by {}
        exited.lemma_next_task_exists();
    }

    /// With a single application, the task that yields or is preempted is
    /// the one that runs next.
    pub proof fn lemma_sole_task_resumes(self, now_us: usize)
        requires
            self.wf(),
            self.running(),
            self.num_app == 1,
        ensures
            self.mark_current(TaskStatus::Ready).schedule() == (Schedule::Switch {
                current: 0,
                next: 0,
            }),
            self.suspend_and_run_next(now_us).running(),
            self.suspend_and_run_next(now_us).current == 0,
    {
        let suspended = self.mark_current(TaskStatus::Ready);
        self.lemma_mark_current(TaskStatus::Ready);
        suspended.lemma_single_ready_chosen(0);
        suspended.lemma_run_next(now_us);
    }

    /// When the running task exits and no other task is ready, all
    /// applications have completed.
    pub proof fn lemma_last_task_exits(self, now_us: usize)
        requires
            self.wf(),
            self.running(),
            forall|i: int| i != self.current ==> !self.is_ready(i),
        ensures
            self.mark_current(TaskStatus::Exited).schedule() is AllCompleted,
            self.exit_and_run_next(now_us) == self.mark_current(TaskStatus::Exited),
    {
        let exited = self.mark_current(TaskStatus::Exited);
        self.lemma_mark_current(TaskStatus::Exited);
        exited.lemma_run_next(now_us);
        assert forall|i: int| !exited.is_ready(i) by {
            if i != self.current {
                assert(exited.is_ready(i) == self.is_ready(i));
            }
        }
    }

    /// Counting a system call keeps the table well formed, leaves the
    /// statuses as they were, and raises one counter by one.
    pub proof fn lemma_count(self, syscall_id: int)
        requires
            self.wf(),
            self.can_count(syscall_id),
        ensures
            self.count(syscall_id).wf(),
            self.count(syscall_id).running() == self.running(),
            self.count(syscall_id).follows(self),
            self.count(syscall_id).tasks[self.current].task_syscall_times[syscall_id]
                == self.tasks[self.current].task_syscall_times[syscall_id] + 1,
            forall|id: int|
                0 <= id < MAX_SYSCALL_NUM && id != syscall_id ==> self.count(
                    syscall_id,
                ).tasks[self.current].task_syscall_times[id]
                    == self.tasks[self.current].task_syscall_times[id],
            forall|now_us: usize|
                self.started_by(now_us) ==> #[trigger] self.count(syscall_id).started_by(now_us),
            forall|now_us: usize|
                self.current_started_by(now_us) ==> #[trigger] self.count(
                    syscall_id,
                ).current_started_by(now_us),
    {
        broadcast use vstd::array::group_array_axioms;

        let after = self.count(syscall_id);
        let old_times = self.tasks[self.current].task_syscall_times;
        let new_times = after.tasks[self.current].task_syscall_times;
        assert(new_times@ == old_times@.update(
            syscall_id,
            (old_times[syscall_id] + 1) as u32,
        ));
        assert forall|id: int| 0 <= id < MAX_SYSCALL_NUM implies new_times[id] == (if id
            == syscall_id {
            old_times[id] + 1
        } else {
            old_times[id] as int
        }) by {
            assert(new_times[id] == new_times@[id]);
            assert(old_times[id] == old_times@[id]);
        }
        assert forall|i: int| 0 <= i < after.tasks.len() implies tcb_follows(
            #[trigger] after.tasks[i],
            self.tasks[i],
        ) by {
            lemma_tcb_follows_reflexive(self.tasks[i]);
        }
        assert forall|now_us: usize| self.started_by(now_us) implies #[trigger] after.started_by(
            now_us,
        ) by {
            assert forall|i: int| 0 <= i < after.tasks.len() implies ((
            #[trigger] after.tasks[i]).task_first_running_time matches Some(t) ==> t <= now_us) by {
                assert(self.tasks[i].task_first_running_time == after.tasks[i].task_first_running_time);
            }
        }
    }

    /// A table in which no task first ran after some time holds no task that
    /// first ran after a later time.
    pub proof fn lemma_started_by_later(self, earlier_us: usize, later_us: usize)
        requires
            self.started_by(earlier_us),
            earlier_us <= later_us,
        ensures
            self.started_by(later_us),
    {
        assert forall|i: int| 0 <= i < self.tasks.len() implies ((
        #[trigger] self.tasks[i]).task_first_running_time matches Some(t) ==> t <= later_us) by {
        }
    }
}

} // verus!
