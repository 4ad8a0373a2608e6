//! The context switch primitive, as a function on register values.

use vstd::prelude::*;
use crate::task::context::TaskContext;

verus! {

/// The hart's callee-saved registers and the saved context of the task that
/// was switched out, after one switch.
pub struct Switched {
    /// What `ra`, `sp` and `s0..s11` of the hart hold after the switch.
    pub hart: TaskContext,
    /// What the switch stored for the task that was running.
    pub current: TaskContext,
}

/// A switch stores the hart's registers for the current task and loads those
/// of the next one.
pub open spec fn switch_spec(hart: TaskContext, next: TaskContext) -> Switched {
    Switched { hart: next, current: hart }
}

/// Saves `ra`, `sp` and `s0..s11` of the hart into `current_task_cx` and
/// loads them from `next_task_cx`. `hart` stands for the live registers.
pub fn switch(hart: &mut TaskContext, current_task_cx: &mut TaskContext, next_task_cx: &TaskContext)
    ensures
        *final(hart) == switch_spec(*old(hart), *next_task_cx).hart,
        *final(current_task_cx) == switch_spec(*old(hart), *next_task_cx).current,
{
    *current_task_cx = *hart;
    *hart = *next_task_cx;
}

/// Switching from task A to task B and straight back leaves the context of B
/// as it was and the hart's registers as they were; the context of A holds
/// those registers, so it too is unchanged where it was a snapshot of them.
pub proof fn lemma_switch_round_trip(hart: TaskContext, a: TaskContext, b: TaskContext)
    ensures
        ({
            let there = switch_spec(hart, b);
            let back = switch_spec(there.hart, there.current);
            &&& back.current == b
            &&& back.hart == hart
            &&& there.current == hart
            &&& a == hart ==> there.current == a
        }),
{
}

} // verus!
