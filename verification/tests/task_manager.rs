use os3::config::{KERNEL_STACK_SIZE, MAX_APP_NUM, MAX_SYSCALL_NUM};
use os3::loader::AppStacks;
use os3::task::{
    exit_current_and_run_next, get_task_info, run_first_task, suspend_current_and_run_next,
    update_syscall_times, InitError, Schedule, TaskManager, TaskStatus,
};
use os3::trap::context::TRAP_CONTEXT_SIZE;

const KERNEL_BASE: usize = 0x8020_0000;
const USER_BASE: usize = 0x8030_0000;
const RESTORE: usize = 0x8020_0f00;

fn boot(num_app: usize) -> TaskManager {
    let mut stacks = AppStacks::new(KERNEL_BASE, USER_BASE).unwrap();
    TaskManager::new(num_app, &mut stacks, 0x22, RESTORE).unwrap()
}

fn statuses(manager: &TaskManager) -> Vec<TaskStatus> {
    (0..manager.num_app()).map(|i| manager.task(i).task_status).collect()
}

fn running_tasks(manager: &TaskManager) -> Vec<usize> {
    (0..MAX_APP_NUM).filter(|&i| manager.task(i).task_status == TaskStatus::Running).collect()
}

#[test]
fn new_makes_every_application_ready() {
    let mut stacks = AppStacks::new(KERNEL_BASE, USER_BASE).unwrap();
    let manager = TaskManager::new(3, &mut stacks, 0x122, RESTORE).unwrap();
    assert_eq!(manager.num_app(), 3);
    assert_eq!(manager.current_task(), 0);
    for i in 0..MAX_APP_NUM {
        let tcb = manager.task(i);
        assert_eq!(tcb.task_syscall_times, [0u32; MAX_SYSCALL_NUM]);
        assert_eq!(tcb.task_first_running_time, None);
        if i < 3 {
            assert_eq!(tcb.task_status, TaskStatus::Ready);
            assert_eq!(tcb.task_cx.ra, RESTORE);
            assert_eq!(
                tcb.task_cx.sp,
                KERNEL_BASE + (i + 1) * KERNEL_STACK_SIZE - TRAP_CONTEXT_SIZE
            );
            assert_eq!(tcb.task_cx.s, [0usize; 12]);
            let cx = stacks.kernel(i).trap_context().unwrap();
            assert_eq!(cx.sepc, 0x8040_0000 + i * 0x2_0000);
            assert_eq!(cx.x[2], stacks.user(i).get_sp());
            assert_eq!(cx.sstatus, 0x22);
        } else {
            assert_eq!(tcb.task_status, TaskStatus::UnInit);
            assert_eq!(tcb.task_cx.ra, 0);
            assert_eq!(tcb.task_cx.sp, 0);
            assert!(stacks.kernel(i).trap_context().is_none());
        }
    }
}

#[test]
fn new_refuses_no_application() {
    let mut stacks = AppStacks::new(KERNEL_BASE, USER_BASE).unwrap();
    assert_eq!(TaskManager::new(0, &mut stacks, 0, RESTORE).err(), Some(InitError::NoApps));
    for i in 0..MAX_APP_NUM {
        assert!(stacks.kernel(i).trap_context().is_none());
    }
}

#[test]
fn new_refuses_too_many_applications() {
    let mut stacks = AppStacks::new(KERNEL_BASE, USER_BASE).unwrap();
    assert_eq!(TaskManager::new(17, &mut stacks, 0, RESTORE).err(), Some(InitError::TooManyApps));
    assert!(TaskManager::new(16, &mut stacks, 0, RESTORE).is_ok());
}

#[test]
fn run_first_task_runs_task_0() {
    let mut manager = boot(2);
    let cx = manager.run_first_task(77);
    assert_eq!(cx.ra, RESTORE);
    assert_eq!(cx.sp, KERNEL_BASE + KERNEL_STACK_SIZE - TRAP_CONTEXT_SIZE);
    assert_eq!(statuses(&manager), vec![TaskStatus::Running, TaskStatus::Ready]);
    assert_eq!(manager.task(0).task_first_running_time, Some(77));
    assert_eq!(manager.task(1).task_first_running_time, None);
    assert_eq!(manager.current_task(), 0);
}

#[test]
fn exactly_one_task_runs_after_each_switch() {
    let mut manager = boot(4);
    assert_eq!(running_tasks(&manager), Vec::<usize>::new());
    manager.run_first_task(0);
    for step in 0..20usize {
        assert_eq!(running_tasks(&manager), vec![manager.current_task()]);
        let schedule = if step % 7 == 6 {
            exit_current_and_run_next(&mut manager, step)
        } else {
            suspend_current_and_run_next(&mut manager, step)
        };
        assert!(matches!(schedule, Schedule::Switch { .. }));
    }
    assert_eq!(running_tasks(&manager), vec![manager.current_task()]);
}

#[test]
fn mark_current_suspended_and_exited() {
    let mut manager = boot(2);
    manager.run_first_task(0);
    manager.mark_current_suspended();
    assert_eq!(statuses(&manager), vec![TaskStatus::Ready, TaskStatus::Ready]);
    assert_eq!(manager.run_next_task(1), Schedule::Switch { current: 0, next: 1 });
    manager.mark_current_exited();
    assert_eq!(statuses(&manager), vec![TaskStatus::Ready, TaskStatus::Exited]);
    assert_eq!(manager.current_task(), 1);
}

#[test]
fn find_next_task_goes_round_from_behind_the_current_task() {
    let mut manager = boot(4);
    manager.run_first_task(0);
    // 0 runs: the first ready task behind it is 1
    assert_eq!(manager.find_next_task(), Some(1));
    assert_eq!(suspend_current_and_run_next(&mut manager, 1), Schedule::Switch { current: 0, next: 1 });
    assert_eq!(manager.find_next_task(), Some(2));
    assert_eq!(suspend_current_and_run_next(&mut manager, 2), Schedule::Switch { current: 1, next: 2 });
    assert_eq!(suspend_current_and_run_next(&mut manager, 3), Schedule::Switch { current: 2, next: 3 });
    // behind the last task comes the first
    assert_eq!(manager.find_next_task(), Some(0));
    assert_eq!(suspend_current_and_run_next(&mut manager, 4), Schedule::Switch { current: 3, next: 0 });
}

#[test]
fn find_next_task_skips_tasks_that_are_not_ready() {
    let mut manager = boot(4);
    manager.run_first_task(0);
    assert_eq!(suspend_current_and_run_next(&mut manager, 1), Schedule::Switch { current: 0, next: 1 });
    assert_eq!(exit_current_and_run_next(&mut manager, 2), Schedule::Switch { current: 1, next: 2 });
    assert_eq!(exit_current_and_run_next(&mut manager, 3), Schedule::Switch { current: 2, next: 3 });
    // 1 and 2 have exited: behind 3 comes 0, behind 0 comes 3
    assert_eq!(suspend_current_and_run_next(&mut manager, 4), Schedule::Switch { current: 3, next: 0 });
    assert_eq!(manager.find_next_task(), Some(3));
    assert_eq!(suspend_current_and_run_next(&mut manager, 5), Schedule::Switch { current: 0, next: 3 });
    assert_eq!(
        statuses(&manager),
        vec![TaskStatus::Ready, TaskStatus::Exited, TaskStatus::Exited, TaskStatus::Running]
    );
}

#[test]
fn a_single_ready_task_is_always_chosen() {
    for only in 0..5usize {
        for current in 0..5usize {
            if current == only {
                continue;
            }
            // bring the table to: `current` running, `only` ready, the rest exited
            let mut manager = boot(5);
            manager.run_first_task(0);
            let mut now = 0;
            loop {
                let me = manager.current_task();
                let others_done = (0..5)
                    .all(|i| i == me || i == only || i == current
                        || manager.task(i).task_status == TaskStatus::Exited);
                if others_done && me == current {
                    break;
                }
                now += 1;
                if me == only || me == current {
                    suspend_current_and_run_next(&mut manager, now);
                } else {
                    exit_current_and_run_next(&mut manager, now);
                }
            }
            assert_eq!(manager.find_next_task(), Some(only));
            assert_eq!(
                suspend_current_and_run_next(&mut manager, now + 1),
                Schedule::Switch { current, next: only }
            );
        }
    }
}

#[test]
fn unused_slots_are_never_chosen() {
    let mut manager = boot(3);
    manager.run_first_task(0);
    for step in 0..30 {
        match suspend_current_and_run_next(&mut manager, step) {
            Schedule::Switch { next, .. } => assert!(next < 3),
            Schedule::AllCompleted => panic!("a task was ready"),
        }
    }
    for i in 3..MAX_APP_NUM {
        assert_eq!(manager.task(i).task_status, TaskStatus::UnInit);
        assert_eq!(manager.task(i).task_first_running_time, None);
    }
}

#[test]
fn a_sole_task_resumes_itself() {
    let mut manager = boot(1);
    manager.run_first_task(10);
    assert_eq!(manager.find_next_task(), None);
    for step in 0..5 {
        assert_eq!(
            suspend_current_and_run_next(&mut manager, 20 + step),
            Schedule::Switch { current: 0, next: 0 }
        );
        assert_eq!(manager.task(0).task_status, TaskStatus::Running);
        assert_eq!(manager.current_task(), 0);
    }
    assert_eq!(manager.task(0).task_first_running_time, Some(10));
}

#[test]
fn the_last_task_to_exit_completes_all_applications() {
    let mut manager = boot(1);
    manager.run_first_task(0);
    assert_eq!(exit_current_and_run_next(&mut manager, 5), Schedule::AllCompleted);
    assert_eq!(manager.task(0).task_status, TaskStatus::Exited);
    assert_eq!(running_tasks(&manager), Vec::<usize>::new());

    let mut manager = boot(3);
    manager.run_first_task(0);
    assert_eq!(exit_current_and_run_next(&mut manager, 1), Schedule::Switch { current: 0, next: 1 });
    assert_eq!(exit_current_and_run_next(&mut manager, 2), Schedule::Switch { current: 1, next: 2 });
    assert_eq!(exit_current_and_run_next(&mut manager, 3), Schedule::AllCompleted);
    assert_eq!(statuses(&manager), vec![TaskStatus::Exited; 3]);
    assert_eq!(manager.current_task(), 2);
}

#[test]
fn run_next_task_with_no_ready_task_changes_nothing() {
    let mut manager = boot(2);
    manager.run_first_task(0);
    exit_current_and_run_next(&mut manager, 1);
    manager.mark_current_exited();
    let before = statuses(&manager);
    assert_eq!(manager.run_next_task(9), Schedule::AllCompleted);
    assert_eq!(statuses(&manager), before);
    assert_eq!(manager.current_task(), 1);
}

#[test]
fn first_running_time_is_set_once() {
    let mut manager = boot(3);
    manager.run_first_task(100);
    let mut seen: Vec<Option<usize>> = vec![None; 3];
    for step in 0..12usize {
        let now = 200 + step * 10;
        suspend_current_and_run_next(&mut manager, now);
        for i in 0..3 {
            let first = manager.task(i).task_first_running_time;
            if seen[i].is_some() {
                assert_eq!(first, seen[i]);
            }
            seen[i] = first;
        }
    }
    assert_eq!(manager.task(0).task_first_running_time, Some(100));
    assert_eq!(manager.task(1).task_first_running_time, Some(200));
    assert_eq!(manager.task(2).task_first_running_time, Some(210));
}

#[test]
fn update_syscall_times_counts_for_the_current_task() {
    let mut manager = boot(2);
    manager.run_first_task(0);
    assert!(manager.update_syscall_times(64));
    assert!(manager.update_syscall_times(64));
    assert!(manager.update_syscall_times(0));
    assert!(manager.update_syscall_times(499));
    suspend_current_and_run_next(&mut manager, 1);
    assert!(manager.update_syscall_times(64));
    assert_eq!(manager.task(0).task_syscall_times[64], 2);
    assert_eq!(manager.task(0).task_syscall_times[0], 1);
    assert_eq!(manager.task(0).task_syscall_times[499], 1);
    assert_eq!(manager.task(0).task_syscall_times[93], 0);
    assert_eq!(manager.task(1).task_syscall_times[64], 1);
    assert_eq!(manager.task(1).task_syscall_times[0], 0);
}

#[test]
fn update_syscall_times_has_no_counter_beyond_the_table() {
    let mut manager = boot(1);
    manager.run_first_task(0);
    assert!(!manager.update_syscall_times(500));
    assert!(!manager.update_syscall_times(usize::MAX));
    assert_eq!(manager.task(0).task_syscall_times, [0u32; MAX_SYSCALL_NUM]);
}

#[test]
fn syscall_counters_never_decrease() {
    let mut manager = boot(3);
    manager.run_first_task(0);
    let mut last = [[0u32; MAX_SYSCALL_NUM]; 3];
    for step in 0..60usize {
        manager.update_syscall_times((step * 37) % 7 + 60);
        if step % 3 == 0 {
            suspend_current_and_run_next(&mut manager, step);
        }
        if step == 40 {
            exit_current_and_run_next(&mut manager, step);
        }
        for i in 0..3 {
            let now = manager.task(i).task_syscall_times;
            for id in 0..MAX_SYSCALL_NUM {
                assert!(now[id] >= last[i][id]);
            }
            last[i] = now;
        }
    }
}

#[test]
fn get_task_info_reports_the_current_task() {
    let mut manager = boot(2);
    run_first_task(&mut manager, 1_000);
    assert!(update_syscall_times(&mut manager, 169));
    suspend_current_and_run_next(&mut manager, 1_500);
    manager.update_syscall_times(410);
    let info = manager.get_task_info(4_000);
    assert_eq!(info.status, TaskStatus::Running);
    assert_eq!(info.time, 2_500);
    assert_eq!(info.syscall_times[410], 1);
    assert_eq!(info.syscall_times[169], 0);
    suspend_current_and_run_next(&mut manager, 5_000);
    let info = get_task_info(&manager, 5_000);
    // time since the first run, whether the task ran all the while or not
    assert_eq!(info.time, 4_000);
    assert_eq!(info.syscall_times[169], 1);
}
