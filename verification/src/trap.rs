//! Traps from user mode: what the kernel does on each cause.
//!
//! `trap_handler` decides and leaves the outside work to its caller: the
//! `TrapOutcome` says what to report, what to program the timer with, and
//! which task goes on. `alltraps` and `restore` state what the trap entry
//! and trap return routines do with the registers.

pub mod context;

pub use context::TrapContext;

use vstd::prelude::*;
use riscv::interrupt::supervisor::{Exception, Interrupt};
use riscv::interrupt::Trap;
use riscv::register::scause::Scause;
use riscv::register::stvec::{Stvec, TrapMode};
use crate::config::USER_STACK_SIZE;
use crate::loader::{base_of, AppStacks};
use crate::syscall::{
    resumes, syscall, syscall_outcome, syscall_table, KernelPanic, SyscallOutcome,
};
use crate::task::table::TaskTable;
use crate::task::task::TaskStatus;
use crate::task::{
    exit_current_and_run_next, suspend_current_and_run_next, Schedule, TaskManager,
};
use crate::timer::{get_time_us, set_next_trigger, tick_cycles, time_us};
use crate::trap::context::{spp_of, lemma_with_spp, Privilege};

verus! {

/// Length in bytes of the instruction that makes a system call.
pub const ECALL_LEN: usize = 4;

/// Why the hart trapped, as far as the kernel tells causes apart.
#[derive(Clone, Copy, Debug, PartialEq, Eq, Structural)]
pub enum TrapCause {
    /// A system call from user mode.
    UserEnvCall,
    /// A store to an address that cannot be accessed.
    StoreFault,
    /// A store to an address that is not mapped.
    StorePageFault,
    /// An instruction that the hart does not have.
    IllegalInstruction,
    /// The supervisor timer interrupt.
    SupervisorTimer,
    /// Any other cause.
    Unsupported,
}

/// Whether the cause register `scause` records an interrupt: its top bit is
/// set.
pub open spec fn is_interrupt(scause: usize) -> bool {
    scause > isize::MAX
}

/// The code that the cause register `scause` holds below its top bit.
pub open spec fn cause_code(scause: usize) -> int {
    if is_interrupt(scause) {
        scause - isize::MAX - 1
    } else {
        scause as int
    }
}

/// The cause that the cause register `scause` records.
pub open spec fn trap_cause(scause: usize) -> TrapCause {
    let code = cause_code(scause);
    if is_interrupt(scause) {
        if code == 5 {
            TrapCause::SupervisorTimer
        } else {
            TrapCause::Unsupported
        }
    } else if code == 8 {
        TrapCause::UserEnvCall
    } else if code == 7 {
        TrapCause::StoreFault
    } else if code == 15 {
        TrapCause::StorePageFault
    } else if code == 2 {
        TrapCause::IllegalInstruction
    } else {
        TrapCause::Unsupported
    }
}

/// Calls `Scause::cause` of the riscv crate on the cause register `scause`
/// and `Trap::try_into` on what it returns. Not proved: that the top bit
/// tells an interrupt from an exception, and that the codes stand for the
/// causes as `trap_cause` has them.
#[verifier::external_body]
fn decode_scause(scause: usize) -> (cause: TrapCause)
    ensures
        cause == trap_cause(scause),
{
    match Scause::from_bits(scause).cause().try_into::<Interrupt, Exception>() {
        Ok(Trap::Exception(Exception::UserEnvCall)) => TrapCause::UserEnvCall,
        Ok(Trap::Exception(Exception::StoreFault)) => TrapCause::StoreFault,
        Ok(Trap::Exception(Exception::StorePageFault)) => TrapCause::StorePageFault,
        Ok(Trap::Exception(Exception::IllegalInstruction)) => TrapCause::IllegalInstruction,
        Ok(Trap::Interrupt(Interrupt::SupervisorTimer)) => TrapCause::SupervisorTimer,
        _ => TrapCause::Unsupported,
    }
}

/// Calls `Stvec::try_new` of the riscv crate for direct mode. Not proved:
/// that it refuses an address that is not a multiple of 4, and that the
/// register word it makes for any other address is the address itself.
#[verifier::external_body]
fn stvec_direct(address: usize) -> (word: Option<usize>)
    ensures
        word == (if address % 4 == 0 {
            Some(address)
        } else {
            None
        }),
{
    match Stvec::try_new(address, TrapMode::Direct) {
        Ok(stvec) => Some(stvec.bits()),
        Err(_) => None,
    }
}

/// The word to write to the trap vector register so that every trap enters
/// the kernel at the routine at address `alltraps`, in direct mode. `None`
/// where the routine is not aligned to 4 bytes, as the register asks.
pub fn init(alltraps: usize) -> (stvec: Option<usize>)
    ensures
        stvec is Some <==> alltraps % 4 == 0,
        stvec matches Some(word) ==> word == alltraps,
{
    stvec_direct(alltraps)
}

/// What a trap comes to, and what is left for the caller to do.
#[derive(Clone, Copy, Debug, PartialEq, Eq)]
pub enum TrapOutcome {
    /// A system call was handled.
    Syscall(SyscallOutcome),
    /// The task stored to the bad address `stval` with the instruction at
    /// `sepc`, and was ended: report it, then do what `schedule` says.
    PageFault { stval: usize, sepc: usize, schedule: Schedule },
    /// The task ran an illegal instruction, and was ended: report it, then do
    /// what `schedule` says.
    IllegalInstruction { schedule: Schedule },
    /// The task's time slice is over, and the task was suspended: program the
    /// timer to interrupt at `next_trigger`, then do what `schedule` says.
    Timer { next_trigger: usize, schedule: Schedule },
    /// The kernel stops.
    Fatal(KernelPanic),
}

/// What the trap with cause register `scause` and trap value `stval`, taken
/// at the counter reading `time` by the current task of `table` with the
/// registers `cx`, comes to. A system call has its identifier in `a7` and
/// its arguments in `a0` to `a2`.
pub open spec fn trap_outcome(
    table: TaskTable,
    cx: TrapContext,
    scause: usize,
    stval: usize,
    time: usize,
) -> TrapOutcome {
    match trap_cause(scause) {
        TrapCause::UserEnvCall => TrapOutcome::Syscall(
            syscall_outcome(table, cx.x[17], cx.x[10], cx.x[11], cx.x[12], time_us(time)),
        ),
        TrapCause::StoreFault | TrapCause::StorePageFault => TrapOutcome::PageFault {
            stval,
            sepc: cx.sepc,
            schedule: table.mark_current(TaskStatus::Exited).schedule(),
        },
        TrapCause::IllegalInstruction => TrapOutcome::IllegalInstruction {
            schedule: table.mark_current(TaskStatus::Exited).schedule(),
        },
        TrapCause::SupervisorTimer => TrapOutcome::Timer {
            next_trigger: (time + tick_cycles()) as usize,
            schedule: table.mark_current(TaskStatus::Ready).schedule(),
        },
        TrapCause::Unsupported => TrapOutcome::Fatal(
            KernelPanic::UnsupportedTrap { scause, stval },
        ),
    }
}

/// The table after the trap with cause register `scause`, taken at the
/// counter reading `time`, during which register `a7` held `syscall_id`.
pub open spec fn trap_table(table: TaskTable, syscall_id: usize, scause: usize, time: usize) -> TaskTable {
    match trap_cause(scause) {
        TrapCause::UserEnvCall => syscall_table(table, syscall_id, time_us(time)),
        TrapCause::StoreFault | TrapCause::StorePageFault | TrapCause::IllegalInstruction => table.exit_and_run_next(
            time_us(time),
        ),
        TrapCause::SupervisorTimer => table.suspend_and_run_next(time_us(time)),
        TrapCause::Unsupported => table,
    }
}

/// Whether a task goes on after a trap with this outcome, which is then the
/// running task.
pub open spec fn trap_resumes(outcome: TrapOutcome) -> bool {
    match outcome {
        TrapOutcome::Syscall(outcome) => resumes(outcome),
        TrapOutcome::PageFault { schedule, .. } => schedule is Switch,
        TrapOutcome::IllegalInstruction { schedule } => schedule is Switch,
        TrapOutcome::Timer { schedule, .. } => schedule is Switch,
        TrapOutcome::Fatal(_) => false,
    }
}

/// The registers of the trapped task after a trap with the outcome
/// `outcome`. A system call moves the resume address past the instruction
/// that made it and, where it returns, leaves its result in `a0`; any other
/// trap leaves the registers alone.
pub open spec fn trap_context_after(cx: TrapContext, outcome: TrapOutcome) -> TrapContext {
    match outcome {
        TrapOutcome::Syscall(outcome) => TrapContext {
            sepc: (cx.sepc + ECALL_LEN) as usize,
            x: match outcome.ret_spec() {
                Some(ret) => vstd::array::spec_array_update(cx.x, 10, ret as usize),
                None => cx.x,
            },
            ..cx
        },
        _ => cx,
    }
}

/// Handles the trap that the running task took from user mode. `cx` holds
/// the task's registers as the trap entry saved them, `scause` and `stval`
/// are the cause and trap value registers, and `time` is the reading of the
/// cycle counter.
pub fn trap_handler(
    manager: &mut TaskManager,
    cx: &mut TrapContext,
    scause: usize,
    stval: usize,
    time: usize,
) -> (outcome: TrapOutcome)
    requires
        old(manager)@.wf(),
        old(manager)@.running(),
        old(manager)@.current_started_by(time_us(time)),
        trap_cause(scause) == TrapCause::UserEnvCall ==> old(cx).sepc + ECALL_LEN <= usize::MAX,
        trap_cause(scause) == TrapCause::SupervisorTimer ==> time + tick_cycles() <= usize::MAX,
    ensures
        outcome == trap_outcome(old(manager)@, *old(cx), scause, stval, time),
        *final(cx) == trap_context_after(*old(cx), outcome),
        final(manager)@ == trap_table(old(manager)@, old(cx).x[17], scause, time),
        final(manager)@.wf(),
        final(manager)@.follows(old(manager)@),
        trap_resumes(outcome) ==> final(manager)@.running(),
        old(manager)@.started_by(time_us(time)) ==> final(manager)@.started_by(time_us(time)),
        trap_cause(scause) == TrapCause::UserEnvCall ==> final(cx).sepc == old(cx).sepc
            + ECALL_LEN,
        trap_cause(scause) != TrapCause::UserEnvCall ==> *final(cx) == *old(cx),
{
    broadcast use vstd::array::group_array_axioms;

    let now_us = get_time_us(time);
    match decode_scause(scause) {
        TrapCause::UserEnvCall => {
            cx.sepc += ECALL_LEN;
            let args = [cx.x[10], cx.x[11], cx.x[12]];
            let outcome = syscall(manager, cx.x[17], args, now_us);
            match outcome.ret() {
                Some(ret) => {
                    cx.x[10] = #[verifier::truncate] (ret as usize);
                },
                None => {},
            }
            TrapOutcome::Syscall(outcome)
        },
        TrapCause::StoreFault | TrapCause::StorePageFault => {
            let schedule = exit_current_and_run_next(manager, now_us);
            TrapOutcome::PageFault { stval, sepc: cx.sepc, schedule }
        },
        TrapCause::IllegalInstruction => {
            let schedule = exit_current_and_run_next(manager, now_us);
            TrapOutcome::IllegalInstruction { schedule }
        },
        TrapCause::SupervisorTimer => {
            let next_trigger = set_next_trigger(time);
            let schedule = suspend_current_and_run_next(manager, now_us);
            TrapOutcome::Timer { next_trigger, schedule }
        },
        TrapCause::Unsupported => {
            TrapOutcome::Fatal(KernelPanic::UnsupportedTrap { scause, stval })
        },
    }
}

/// The state in which a task runs: its privilege mode, program counter and
/// general-purpose registers.
#[derive(Clone, Copy, Debug, PartialEq, Eq)]
pub struct HartState {
    /// The privilege mode.
    pub privilege: Privilege,
    /// The program counter.
    pub pc: usize,
    /// General-purpose registers `x0` to `x31`.
    pub x: [usize; 32],
}

/// The state in which the hart goes on when the trap return routine has
/// loaded the trap context `cx`.
pub open spec fn restore_spec(cx: TrapContext) -> HartState {
    HartState { privilege: spp_of(cx.sstatus), pc: cx.sepc, x: cx.x }
}

/// What the trap return routine does with the trap context `cx`: it loads
/// the status word, the resume address and the general-purpose registers,
/// and returns to the privilege mode that the status word records.
pub fn restore(cx: &TrapContext) -> (hart: HartState)
    ensures
        hart == restore_spec(*cx),
{
    HartState { privilege: cx.spp(), pc: cx.sepc, x: cx.x }
}

/// What the trap entry routine does when a task in the state `hart` traps:
/// it saves the general-purpose registers, the status word `sstatus` and the
/// address of the trapping instruction as the task's trap context.
pub fn alltraps(hart: &HartState, sstatus: usize) -> (cx: TrapContext)
    ensures
        cx.x == hart.x,
        cx.sstatus == sstatus,
        cx.sepc == hart.pc,
        spp_of(sstatus) == hart.privilege ==> restore_spec(cx) == *hart,
{
    TrapContext { x: hart.x, sstatus, sepc: hart.pc }
}

/// A task that is started from the trap context made for its application
/// runs in user mode at `entry` with the stack pointer `sp` and every other
/// general-purpose register zero.
pub proof fn lemma_restore_app_init(cx: TrapContext, entry: usize, sp: usize, sstatus: usize)
    requires
        cx.is_app_init(entry, sp, sstatus),
    ensures
        restore_spec(cx).privilege == Privilege::User,
        restore_spec(cx).pc == entry,
        restore_spec(cx).x[2] == sp,
        forall|i: int| 0 <= i < 32 && i != 2 ==> restore_spec(cx).x[i] == 0,
        cx.sstatus & 0x2 == sstatus & 0x2,
{
    lemma_with_spp(sstatus, Privilege::User);
}

/// Application `app_id` is started, from the trap context that was pushed on
/// its kernel stack, in user mode at its load address, with the stack pointer
/// at the top of its user stack and every other general-purpose register
/// zero.
pub proof fn lemma_first_run(stacks: AppStacks, num_app: int, sstatus: usize, app_id: int)
    requires
        stacks.holds_init_contexts(num_app, sstatus),
        0 <= app_id < num_app,
    ensures
        stacks.kernel_stack(app_id).frame() is Some,
        ({
            let hart = restore_spec(stacks.kernel_stack(app_id).frame()->0);
            &&& hart.privilege == Privilege::User
            &&& hart.pc == base_of(app_id) as usize
            &&& hart.x[2] == (stacks.user_stack(app_id).base_addr() + USER_STACK_SIZE) as usize
            &&& forall|i: int| 0 <= i < 32 && i != 2 ==> hart.x[i] == 0
        }),
{
    let stack = stacks.kernel_stack(app_id);
    lemma_restore_app_init(
        stack.frame()->0,
        base_of(app_id) as usize,
        (stacks.user_stack(app_id).base_addr() + USER_STACK_SIZE) as usize,
        sstatus,
    );
}

} // verus!
