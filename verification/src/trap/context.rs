//! The registers that a trap saves and restores.
use vstd::prelude::*;

verus! {

/// Bit 8 of `sstatus`: the privilege mode (0 for User) that `sret` returns to.
pub const SSTATUS_SPP: usize = 0x100;

/// Index of the stack pointer (`sp`, `x2`) among the general registers.
pub const REG_SP: usize = 2;

/// What the trap context of a fresh application holds in `sstatus`, given
/// the bits of `sstatus` read when it is built: the same bits, with the
/// previous privilege mode (SPP) set to User, that is, bit 8 cleared.
pub open spec fn user_sstatus(bits: usize) -> usize {
    bits & !SSTATUS_SPP
}

/// Resources that need to be stored when a trap is taken.
#[derive(Clone, Copy, Debug, PartialEq, Eq)]
pub struct TrapContext {
    /// The 32 general registers.
    pub x: [usize; 32],
    /// The `sstatus` CSR.
    pub sstatus: usize,
    /// The address to return to after the trap.
    pub sepc: usize,
}

/// Number of machine words in a trap context: 32 general registers,
/// `sstatus` and `sepc`, stored one after the other.
pub const TRAP_CONTEXT_WORDS: usize = 34;

/// Size in bytes of a trap context stored in memory.
pub open spec fn trap_context_size() -> nat {
    (TRAP_CONTEXT_WORDS * (usize::BITS / 8) as nat) as nat
}

impl TrapContext {
    /// Size in bytes of a trap context stored in memory: one machine word
    /// per register.
    pub fn size_in_bytes() -> (size: usize)
        ensures
            size == trap_context_size(),
    {
        broadcast use vstd::layout::layout_of_primitives;

        let word = core::mem::size_of::<usize>();
        assert(word == 4 || word == 8);
        TRAP_CONTEXT_WORDS * word
    }

    /// Whether `cx` is the context with which an application starts at
    /// `entry` on the stack `sp`: all registers 0 but `sp`, User mode.
    pub open spec fn is_app_init_context(cx: TrapContext, entry: usize, sp: usize, sstatus: usize) -> bool {
        &&& cx.x@ == Seq::new(32, |i: int| if i == REG_SP { sp } else { 0usize })
        &&& cx.sstatus == user_sstatus(sstatus)
        &&& cx.sepc == entry
    }

    /// Puts `sp` into `x2`, the stack pointer.
    pub fn set_sp(&mut self, sp: usize)
        ensures
            final(self).x@ == old(self).x@.update(REG_SP as int, sp),
            final(self).sstatus == old(self).sstatus,
            final(self).sepc == old(self).sepc,
    {
        self.x[REG_SP] = sp;
    }

    /// The context with which an application starts at `entry` on the stack
    /// `sp`, in User mode; `sstatus` is the value of the CSR when it is built.
    pub fn app_init_context(entry: usize, sp: usize, sstatus: usize) -> (cx: Self)
        ensures
            Self::is_app_init_context(cx, entry, sp, sstatus),
            cx.sepc == entry,
            cx.x[REG_SP as int] == sp,
            forall|i: int| 0 <= i < 32 && i != REG_SP ==> #[trigger] cx.x[i] == 0,
            cx.sstatus & SSTATUS_SPP == 0,
            cx.sstatus | SSTATUS_SPP == sstatus | SSTATUS_SPP,
    {
        let mut cx = TrapContext { x: [0usize; 32], sstatus: sstatus & !SSTATUS_SPP, sepc: entry };
        cx.set_sp(sp);
        assert(cx.x@ =~= Seq::new(32, |i: int| if i == REG_SP { sp } else { 0usize }));
        proof {
            lemma_app_init_context_registers(cx, entry, sp, sstatus);
        }
        cx
    }
}

/// A fresh application's context starts at `entry` with its stack pointer
/// at `sp`, every other register 0, and `sstatus` as it was read except
/// that the previous privilege mode is User: bit 8 is clear and every other
/// bit is the one read.
pub proof fn lemma_app_init_context_registers(cx: TrapContext, entry: usize, sp: usize, sstatus: usize)
    requires
        TrapContext::is_app_init_context(cx, entry, sp, sstatus),
    ensures
        cx.sepc == entry,
        cx.x[REG_SP as int] == sp,
        forall|i: int| 0 <= i < 32 && i != REG_SP ==> #[trigger] cx.x[i] == 0,
        cx.sstatus & SSTATUS_SPP == 0,
        cx.sstatus | SSTATUS_SPP == sstatus | SSTATUS_SPP,
{
    let s = cx.sstatus;
    assert(s == sstatus & !0x100usize);
    assert(s & 0x100usize == 0 && s | 0x100usize == sstatus | 0x100usize) by (bit_vector)
        requires
            s == sstatus & !0x100usize,
    ;
}

} // verus!
