use os3::config::{
    APP_BASE_ADDRESS, APP_SIZE_LIMIT, CLOCK_FREQ, KERNEL_STACK_SIZE, MAX_APP_NUM, MAX_SYSCALL_NUM,
    USER_STACK_SIZE,
};
use os3::syscall::process::{sys_get_time, TimeVal};
use os3::syscall::SyscallOutcome;
use os3::timer::{get_time_us, set_next_trigger, MICRO_PER_SEC, TICKS_PER_SEC};

#[test]
fn platform_constants() {
    assert_eq!(MAX_APP_NUM, 16);
    assert_eq!(KERNEL_STACK_SIZE, 8192);
    assert_eq!(USER_STACK_SIZE, 4096);
    assert_eq!(APP_BASE_ADDRESS, 0x8040_0000);
    assert_eq!(APP_SIZE_LIMIT, 0x20000);
    assert_eq!(MAX_SYSCALL_NUM, 500);
    assert_eq!(CLOCK_FREQ, 12_500_000);
    assert_eq!(TICKS_PER_SEC, 100);
    assert_eq!(MICRO_PER_SEC, 1_000_000);
}

#[test]
fn get_time_us_divides_by_cycles_per_microsecond() {
    assert_eq!(get_time_us(0), 0);
    assert_eq!(get_time_us(11), 0);
    assert_eq!(get_time_us(12), 1);
    assert_eq!(get_time_us(12_500_000), 1_041_666);
    assert_eq!(get_time_us(usize::MAX), usize::MAX / 12);
}

#[test]
fn set_next_trigger_is_one_tick_ahead() {
    assert_eq!(set_next_trigger(0), 125_000);
    assert_eq!(set_next_trigger(1_000), 126_000);
    assert_eq!(set_next_trigger(usize::MAX - 125_000), usize::MAX);
}

#[test]
fn get_time_splits_seconds_and_microseconds() {
    match sys_get_time(0x8040_1000, 0, 3_000_042) {
        SyscallOutcome::GetTime { ts, time } => {
            assert_eq!(ts, 0x8040_1000);
            assert_eq!(time, TimeVal { sec: 3, usec: 42 });
        }
        other => panic!("unexpected outcome {:?}", other.ret()),
    }
    match sys_get_time(0, 7, 999_999) {
        SyscallOutcome::GetTime { time, .. } => assert_eq!(time, TimeVal { sec: 0, usec: 999_999 }),
        other => panic!("unexpected outcome {:?}", other.ret()),
    }
}

#[test]
fn time_monotonicity() {
    // two readings of the counter, more than one tick apart
    let first = 40_000_000usize;
    let second = first + 125_000 + 1;
    let t1 = match sys_get_time(0, 0, get_time_us(first)) {
        SyscallOutcome::GetTime { time, .. } => time,
        other => panic!("unexpected outcome {:?}", other.ret()),
    };
    let t2 = match sys_get_time(0, 0, get_time_us(second)) {
        SyscallOutcome::GetTime { time, .. } => time,
        other => panic!("unexpected outcome {:?}", other.ret()),
    };
    assert!((t2.sec, t2.usec) > (t1.sec, t1.usec));
    assert_eq!(t1, TimeVal { sec: 3, usec: 333_333 });
    assert_eq!(t2, TimeVal { sec: 3, usec: 343_750 });
}

#[test]
fn time_monotonicity_across_a_second() {
    let t1 = match sys_get_time(0, 0, 1_999_999) {
        SyscallOutcome::GetTime { time, .. } => time,
        other => panic!("unexpected outcome {:?}", other.ret()),
    };
    let t2 = match sys_get_time(0, 0, 2_000_000) {
        SyscallOutcome::GetTime { time, .. } => time,
        other => panic!("unexpected outcome {:?}", other.ret()),
    };
    assert_eq!(t1, TimeVal { sec: 1, usec: 999_999 });
    assert_eq!(t2, TimeVal { sec: 2, usec: 0 });
    assert!((t2.sec, t2.usec) > (t1.sec, t1.usec));
}
