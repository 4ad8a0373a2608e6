use os3::task::switch::{switch, Switched};
use os3::task::TaskContext;
use os3::trap::context::{Privilege, TrapContext, TRAP_CONTEXT_SIZE};
use os3::trap::{alltraps, restore, HartState};

const SSTATUS_MASK: usize = 0x8000_0003_000d_e762;

#[test]
fn zero_init_is_all_zero() {
    let cx = TaskContext::zero_init();
    assert_eq!(cx.ra, 0);
    assert_eq!(cx.sp, 0);
    assert_eq!(cx.s, [0usize; 12]);
}

#[test]
fn goto_restore_points_at_the_trap_return_routine() {
    let cx = TaskContext::goto_restore(0x8020_1ef0, 0x8020_0abc);
    assert_eq!(cx.ra, 0x8020_0abc);
    assert_eq!(cx.sp, 0x8020_1ef0);
    assert_eq!(cx.s, [0usize; 12]);
}

#[test]
fn switch_saves_the_hart_and_loads_the_next_task() {
    let mut hart = TaskContext { ra: 1, sp: 2, s: [3; 12] };
    let mut a = TaskContext::zero_init();
    let b = TaskContext { ra: 10, sp: 20, s: [30; 12] };
    switch(&mut hart, &mut a, &b);
    assert_eq!(a, TaskContext { ra: 1, sp: 2, s: [3; 12] });
    assert_eq!(hart, b);
}

#[test]
fn switch_there_and_back_restores_both_contexts() {
    let running = TaskContext { ra: 0x100, sp: 0x200, s: [7; 12] };
    let mut hart = running;
    let mut a = running;
    let mut b = TaskContext { ra: 0x300, sp: 0x400, s: [9; 12] };
    let a_before = a;
    let b_before = b;
    let next = b;
    switch(&mut hart, &mut a, &next);
    let next = a;
    switch(&mut hart, &mut b, &next);
    assert_eq!(a, a_before);
    assert_eq!(b, b_before);
    assert_eq!(hart, running);
}

#[test]
fn switched_is_a_plain_pair() {
    let s = Switched { hart: TaskContext::zero_init(), current: TaskContext::goto_restore(8, 4) };
    assert_eq!(s.hart.sp, 0);
    assert_eq!(s.current.sp, 8);
}

#[test]
fn trap_context_size_is_34_registers() {
    assert_eq!(TRAP_CONTEXT_SIZE, 34 * 8);
}

#[test]
fn set_sp_changes_x2_only() {
    let mut cx = TrapContext { x: [5; 32], sstatus: 0x22, sepc: 0x1000 };
    cx.set_sp(0xdead_0000);
    for i in 0..32 {
        if i == 2 {
            assert_eq!(cx.x[i], 0xdead_0000);
        } else {
            assert_eq!(cx.x[i], 5);
        }
    }
    assert_eq!(cx.sstatus, 0x22);
    assert_eq!(cx.sepc, 0x1000);
}

#[test]
fn app_init_context_enters_user_mode_at_entry() {
    let cx = TrapContext::app_init_context(0x8040_0000, 0x8030_1000, 0x122);
    assert_eq!(cx.sepc, 0x8040_0000);
    assert_eq!(cx.x[2], 0x8030_1000);
    for i in 0..32 {
        if i != 2 {
            assert_eq!(cx.x[i], 0);
        }
    }
    // bit 8 (previous privilege) is cleared, bits 1 and 5 stay
    assert_eq!(cx.sstatus, 0x22);
    assert_eq!(cx.spp(), Privilege::User);
}

#[test]
fn app_init_context_keeps_the_fields_of_sstatus_only() {
    let all = usize::MAX;
    let cx = TrapContext::app_init_context(0, 0, all);
    assert_eq!(cx.sstatus, SSTATUS_MASK & !0x100);
    let cx = TrapContext::app_init_context(0, 0, 0);
    assert_eq!(cx.sstatus, 0);
    // bit 0 and bit 11 are no fields of sstatus
    let cx = TrapContext::app_init_context(0, 0, 0x801);
    assert_eq!(cx.sstatus, 0);
}

#[test]
fn app_init_context_leaves_interrupt_enable_as_it_was() {
    let on = TrapContext::app_init_context(0, 0, 0x102);
    assert_eq!(on.sstatus & 0x2, 0x2);
    let off = TrapContext::app_init_context(0, 0, 0x100);
    assert_eq!(off.sstatus & 0x2, 0);
}

#[test]
fn spp_reads_bit_8() {
    let user = TrapContext { x: [0; 32], sstatus: 0x22, sepc: 0 };
    assert_eq!(user.spp(), Privilege::User);
    let supervisor = TrapContext { x: [0; 32], sstatus: 0x122, sepc: 0 };
    assert_eq!(supervisor.spp(), Privilege::Supervisor);
}

#[test]
fn restore_of_an_initial_context_starts_the_app() {
    let cx = TrapContext::app_init_context(0x8042_0000, 0x8030_2000, 0x8000_0000_0000_6122);
    let hart = restore(&cx);
    assert_eq!(hart.privilege, Privilege::User);
    assert_eq!(hart.pc, 0x8042_0000);
    assert_eq!(hart.x[2], 0x8030_2000);
    for i in 0..32 {
        if i != 2 {
            assert_eq!(hart.x[i], 0);
        }
    }
}

#[test]
fn alltraps_then_restore_is_the_identity() {
    let mut x = [0usize; 32];
    for i in 0..32 {
        x[i] = 100 + i;
    }
    let hart = HartState { privilege: Privilege::User, pc: 0x8040_0010, x };
    let cx = alltraps(&hart, 0x20);
    assert_eq!(cx.x, x);
    assert_eq!(cx.sepc, 0x8040_0010);
    assert_eq!(cx.sstatus, 0x20);
    assert_eq!(restore(&cx), hart);
}
