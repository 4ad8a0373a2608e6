//! The register snapshot taken when a task traps into the kernel.

use vstd::prelude::*;
use riscv::register::sstatus::{Sstatus, SPP};

verus! {

/// Size in bytes of a trap context in memory: 34 registers of 8 bytes.
pub const TRAP_CONTEXT_SIZE: usize = 272;

/// A privilege mode that a trap can come from.
#[derive(Clone, Copy, Debug, PartialEq, Eq, Structural)]
pub enum Privilege {
    User,
    Supervisor,
}

/// The bits of `sstatus` that hold a field.
pub open spec fn sstatus_mask() -> usize {
    if usize::BITS == 64 {
        0x8000_0003_000d_e762u64 as usize
    } else {
        0x800d_e762usize
    }
}

/// The previous privilege mode that the status word `bits` records (bit 8).
pub open spec fn spp_of(bits: usize) -> Privilege {
    if bits & 0x100 == 0 {
        Privilege::User
    } else {
        Privilege::Supervisor
    }
}

/// The status word `bits`, cut down to its fields, with the previous
/// privilege mode set to `spp`.
pub open spec fn with_spp(bits: usize, spp: Privilege) -> usize {
    let cleared = bits & sstatus_mask() & !0x100usize;
    match spp {
        Privilege::User => cleared,
        Privilege::Supervisor => cleared | 0x100usize,
    }
}

/// Calls `Sstatus::set_spp` of the riscv crate on the status word `bits`.
/// Not proved: that the word which comes back is `bits` restricted to the
/// register's fields, with bit 8 cleared for `User` and set for `Supervisor`.
#[verifier::external_body]
fn sstatus_set_spp(bits: usize, spp: Privilege) -> (r: usize)
    ensures
        r == with_spp(bits, spp),
{
    let mut sstatus = Sstatus::from_bits(bits);
    sstatus.set_spp(match spp {
        Privilege::User => SPP::User,
        Privilege::Supervisor => SPP::Supervisor,
    });
    sstatus.bits()
}

/// Calls `Sstatus::spp` of the riscv crate on the status word `bits`.
/// Not proved: that it reports the mode that bit 8 encodes.
#[verifier::external_body]
fn sstatus_spp(bits: usize) -> (r: Privilege)
    ensures
        r == spp_of(bits),
{
    match Sstatus::from_bits(bits).spp() {
        SPP::User => Privilege::User,
        SPP::Supervisor => Privilege::Supervisor,
    }
}

/// Setting the previous privilege mode of a status word is read back, and
/// leaves the interrupt enable bit (bit 1) as it was.
pub proof fn lemma_with_spp(bits: usize, spp: Privilege)
    ensures
        spp_of(with_spp(bits, spp)) == spp,
        with_spp(bits, spp) & 0x2 == bits & 0x2,
{
    let m = sstatus_mask();
    assert(m & 0x2 == 0x2 && m & 0x100 == 0x100) by {
        if usize::BITS == 64 {
            assert(0x8000_0003_000d_e762u64 & 0x2 == 0x2) by (bit_vector);
            assert(0x8000_0003_000d_e762u64 & 0x100 == 0x100) by (bit_vector);
        } else {
            assert(0x800d_e762usize & 0x2 == 0x2) by (bit_vector);
            assert(0x800d_e762usize & 0x100 == 0x100) by (bit_vector);
        }
    }
    assert((bits & m & !0x100usize) & 0x100 == 0) by (bit_vector);
    assert(((bits & m & !0x100usize) | 0x100usize) & 0x100 != 0) by (bit_vector);
    assert((bits & m & !0x100usize) & 0x2 == bits & 0x2) by (bit_vector)
        requires
            m & 0x2 == 0x2,
    ;
    assert(((bits & m & !0x100usize) | 0x100usize) & 0x2 == bits & 0x2) by (bit_vector)
        requires
            m & 0x2 == 0x2,
    ;
}

/// The registers of a task as they were when it trapped, and as the
/// trap-return routine loads them again.
#[derive(Clone, Copy, Debug, PartialEq, Eq)]
pub struct TrapContext {
    /// General-purpose registers `x0` to `x31`.
    pub x: [usize; 32],
    /// Supervisor status register.
    pub sstatus: usize,
    /// Address at which the task goes on after the trap.
    pub sepc: usize,
}

impl TrapContext {
    /// Whether this is the context that starts an application: it resumes in
    /// user mode at `entry` with the stack pointer `sp`, all other
    /// general-purpose registers zero, and the status word taken from
    /// `sstatus`.
    pub open spec fn is_app_init(&self, entry: usize, sp: usize, sstatus: usize) -> bool {
        &&& self.sepc == entry
        &&& self.sstatus == with_spp(sstatus, Privilege::User)
        &&& self.x[2] == sp
        &&& forall|i: int| 0 <= i < 32 && i != 2 ==> self.x[i] == 0
    }

    /// Sets the stack pointer (`x2`).
    pub fn set_sp(&mut self, sp: usize)
        ensures
            final(self).x@ == old(self).x@.update(2, sp),
            final(self).sstatus == old(self).sstatus,
            final(self).sepc == old(self).sepc,
    {
        self.x[2] = sp;
    }

    /// The trap context of an application that has not run yet. `sstatus` is
    /// the status register as the kernel reads it at that moment; the context
    /// keeps it but for the previous privilege mode, which becomes `User`.
    pub fn app_init_context(entry: usize, sp: usize, sstatus: usize) -> (cx: Self)
        ensures
            cx.is_app_init(entry, sp, sstatus),
    {
        let mut cx = Self { x: [0; 32], sstatus: sstatus_set_spp(sstatus, Privilege::User), sepc: entry };
        cx.set_sp(sp);
        cx
    }

    /// The privilege mode that the trap came from, and that trap return goes
    /// back to.
    pub fn spp(&self) -> (p: Privilege)
        ensures
            p == spp_of(self.sstatus),
    {
        sstatus_spp(self.sstatus)
    }
}

} // verus!
