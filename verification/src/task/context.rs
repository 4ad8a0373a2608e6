//! The callee-saved register snapshot that a task switch saves and restores.

use vstd::prelude::*;

verus! {

/// The registers that the switch routine saves for a suspended task, in the
/// order in which the routine lays them out.
#[derive(Clone, Copy, Debug, PartialEq, Eq)]
pub struct TaskContext {
    /// Return address: where the task goes on once it is switched in.
    pub ra: usize,
    /// Kernel stack pointer.
    pub sp: usize,
    /// Callee-saved registers `s0` to `s11`.
    pub s: [usize; 12],
}

impl TaskContext {
    /// Whether `ra`, `sp` and all of `s0..s11` are zero.
    pub open spec fn is_zero(&self) -> bool {
        &&& self.ra == 0
        &&& self.sp == 0
        &&& forall|i: int| 0 <= i < 12 ==> self.s[i] == 0
    }

    /// Whether this is the context of a task that has never run: switching it
    /// in continues at `restore` with the kernel stack pointer at `kstack_ptr`.
    pub open spec fn starts_at(&self, kstack_ptr: usize, restore: usize) -> bool {
        &&& self.ra == restore
        &&& self.sp == kstack_ptr
        &&& forall|i: int| 0 <= i < 12 ==> self.s[i] == 0
    }

    /// The all-zero context, which fills the slots of the task table that
    /// hold no task and serves as the throwaway context of the first switch.
    pub fn zero_init() -> (cx: Self)
        ensures
            cx.is_zero(),
    {
        Self { ra: 0, sp: 0, s: [0; 12] }
    }

    /// The context of a task that has never run. `kstack_ptr` is the address
    /// of the trap context pushed on the task's kernel stack, and `restore`
    /// the address of the trap-return routine, which the first switch into
    /// the task returns to.
    pub fn goto_restore(kstack_ptr: usize, restore: usize) -> (cx: Self)
        ensures
            cx.starts_at(kstack_ptr, restore),
    {
        Self { ra: restore, sp: kstack_ptr, s: [0; 12] }
    }
}

} // verus!
