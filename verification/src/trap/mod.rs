//! Trap handling: what the kernel does with a trap taken from user space.
use riscv::interrupt::supervisor::Exception;
use riscv::interrupt::Trap;
use riscv::register::scause::Scause;
use riscv::ExceptionNumber;
use vstd::prelude::*;

pub mod context;

pub use self::context::TrapContext;
use crate::user_lib::syscall::SyscallRequest;

verus! {

/// Exception code of an environment call from User mode (`ecall`).
pub const USER_ENV_CALL: usize = 8;

/// Index of `a0` (`x10`): first argument, and return value, of a system call.
pub const REG_A0: usize = 10;
/// Index of `a1` (`x11`).
pub const REG_A1: usize = 11;
/// Index of `a2` (`x12`).
pub const REG_A2: usize = 12;
/// Index of `a7` (`x17`): the system call number.
pub const REG_A7: usize = 17;

/// The cause of a trap, as `scause` gives it.
#[derive(PartialEq, Eq, Structural, Clone, Copy, Debug)]
pub enum TrapCause {
    /// An interrupt, with its code.
    Interrupt(usize),
    /// An exception, with its code.
    Exception(usize),
}

/// The highest bit of `scause`: set for an interrupt, clear for an exception.
pub open spec fn scause_interrupt_bit() -> usize {
    1usize << (usize::BITS - 1) as usize
}

/// The trap cause that the bits of `scause` encode: the highest bit tells
/// an interrupt from an exception, the other bits are the code.
pub open spec fn scause_cause(bits: usize) -> TrapCause {
    if bits & scause_interrupt_bit() != 0 {
        TrapCause::Interrupt(bits & !scause_interrupt_bit())
    } else {
        TrapCause::Exception(bits & !scause_interrupt_bit())
    }
}

/// Whether the bits of `scause` encode an environment call from User mode.
pub open spec fn is_user_env_call(bits: usize) -> bool {
    scause_cause(bits) == TrapCause::Exception(USER_ENV_CALL)
}

/// Calls riscv's `Scause::from_bits` and `Scause::cause`.  The crate reads
/// the interrupt flag from the highest bit and the code from the other bits
/// (the register keeps every bit); that is what `ensures` says.
#[verifier::external_body]
fn decode_scause(bits: usize) -> (cause: TrapCause)
    ensures
        cause == scause_cause(bits),
{
    match Scause::from_bits(bits).cause() {
        Trap::Interrupt(code) => TrapCause::Interrupt(code),
        Trap::Exception(code) => TrapCause::Exception(code),
    }
}

/// Calls riscv's `Exception::from_number` on an exception code and tells
/// whether it names `Exception::UserEnvCall`, whose number is 8.
#[verifier::external_body]
fn names_user_env_call(code: usize) -> (r: bool)
    ensures
        r == (code == USER_ENV_CALL),
{
    matches!(Exception::from_number(code), Ok(Exception::UserEnvCall))
}

/// What the kernel is to do after it has handled a trap.
#[derive(PartialEq, Eq, Clone, Copy, Debug)]
pub enum TrapOutcome {
    /// The application asked for a system call: perform it, store its
    /// result with [`complete_syscall`], and return to the application.
    Syscall { id: usize, args: [usize; 3] },
    /// The application raised another exception: kill it and run the next.
    KillApp { exception: usize },
}

/// The outcome of a system call trap on the context `cx`: the number from
/// `a7` and the arguments from `a0`, `a1`, `a2`.
pub open spec fn syscall_outcome(cx: TrapContext) -> TrapOutcome {
    TrapOutcome::Syscall {
        id: cx.x[REG_A7 as int],
        args: [cx.x[REG_A0 as int], cx.x[REG_A1 as int], cx.x[REG_A2 as int]],
    }
}

/// The system call of a trapped `ecall` is the one in the registers: its
/// number is `a7` and its arguments are `a0`, `a1`, `a2`, in that order.
pub proof fn lemma_syscall_outcome_reads_a7_a0_a2(cx: TrapContext)
    ensures
        syscall_outcome(cx) matches TrapOutcome::Syscall { id, args } && id == cx.x[REG_A7 as int]
            && args@ == seq![cx.x[REG_A0 as int], cx.x[REG_A1 as int], cx.x[REG_A2 as int]],
{
    let args = [cx.x[REG_A0 as int], cx.x[REG_A1 as int], cx.x[REG_A2 as int]];
    assert(args@ =~= seq![cx.x[REG_A0 as int], cx.x[REG_A1 as int], cx.x[REG_A2 as int]]);
}

/// Whether the registers of `cx` hold the system call `req` as an
/// application lays it out for `ecall`: the number in `a7`, the arguments
/// in `a0`, `a1`, `a2`.
pub open spec fn holds_request(cx: TrapContext, req: SyscallRequest) -> bool {
    &&& cx.x[REG_A7 as int] == req.id
    &&& cx.x[REG_A0 as int] == req.args[0]
    &&& cx.x[REG_A1 as int] == req.args[1]
    &&& cx.x[REG_A2 as int] == req.args[2]
}

/// A system call crosses from the application to the kernel unchanged: when
/// the registers hold the request, the trapped `ecall` yields the same
/// number and the same arguments.
pub proof fn lemma_request_round_trip(cx: TrapContext, req: SyscallRequest)
    requires
        holds_request(cx, req),
    ensures
        syscall_outcome(cx) matches TrapOutcome::Syscall { id, args } && id == req.id && args@
            == req.args@,
{
    lemma_syscall_outcome_reads_a7_a0_a2(cx);
    assert(req.args@ =~= seq![req.args[0], req.args[1], req.args[2]]);
}

/// The effect of an environment call on the context: `sepc` moves past
/// the 4-byte `ecall` instruction, every register is kept.
pub open spec fn enters_ecall(before: TrapContext, after: TrapContext) -> bool {
    &&& after.sepc == before.sepc + 4
    &&& after.x == before.x
    &&& after.sstatus == before.sstatus
}

/// The effect of storing the result `ret` of a system call: `a0` holds it,
/// every other register is kept.
pub open spec fn stores_result(before: TrapContext, after: TrapContext, ret: isize) -> bool {
    &&& after.x@ == before.x@.update(REG_A0 as int, ret as usize)
    &&& after.sstatus == before.sstatus
    &&& after.sepc == before.sepc
}

/// Handles an exception from user space, given the value of `scause`.
///
/// An environment call moves `sepc` past the `ecall` instruction (4 bytes)
/// and yields the system call that `a7` and `a0`..`a2` name.  Any other
/// exception yields the order to kill the application.  Only the
/// environment call changes the context.  Interrupts are not supported: the
/// kernel panics on one before it gets here.
pub fn trap_handler(cx: &mut TrapContext, scause: usize) -> (out: TrapOutcome)
    requires
        scause_cause(scause) is Exception,
        is_user_env_call(scause) ==> old(cx).sepc + 4 <= usize::MAX,
    ensures
        is_user_env_call(scause) ==> enters_ecall(*old(cx), *final(cx)) && out == syscall_outcome(
            *old(cx),
        ),
        is_user_env_call(scause) ==> {
            &&& final(cx).sepc == old(cx).sepc + 4
            &&& final(cx).x@ == old(cx).x@
            &&& out matches TrapOutcome::Syscall { id, args }
            &&& id == old(cx).x[REG_A7 as int]
            &&& args@ == seq![old(cx).x[REG_A0 as int], old(cx).x[REG_A1 as int], old(cx).x[REG_A2 as int]]
        },
        !is_user_env_call(scause) ==> *final(cx) == *old(cx),
        scause_cause(scause) matches TrapCause::Exception(code) ==> (code != USER_ENV_CALL
            ==> out == (TrapOutcome::KillApp { exception: code })),
{
    match decode_scause(scause) {
        TrapCause::Exception(code) => {
            if names_user_env_call(code) {
                cx.sepc = cx.sepc + 4;
                let out = TrapOutcome::Syscall {
                    id: cx.x[REG_A7],
                    args: [cx.x[REG_A0], cx.x[REG_A1], cx.x[REG_A2]],
                };
                proof {
                    lemma_syscall_outcome_reads_a7_a0_a2(*old(cx));
                }
                out
            } else {
                TrapOutcome::KillApp { exception: code }
            }
        },
        TrapCause::Interrupt(code) => {
            assert(false);
            TrapOutcome::KillApp { exception: code }
        },
    }
}

/// Stores the result of a system call in `a0`, where the application reads it.
pub fn complete_syscall(cx: &mut TrapContext, ret: isize)
    ensures
        stores_result(*old(cx), *final(cx), ret),
{
    cx.x[REG_A0] = ret as usize;
}

/// A system call returns to the application at the instruction after its
/// `ecall`, with the result in `a0` and every other register as the
/// application left it.
pub proof fn lemma_syscall_resumes_after_ecall(
    trapped: TrapContext,
    entered: TrapContext,
    resumed: TrapContext,
    ret: isize,
)
    requires
        enters_ecall(trapped, entered),
        stores_result(entered, resumed, ret),
    ensures
        resumed.sepc == trapped.sepc + 4,
        resumed.x[REG_A0 as int] == ret as usize,
        forall|i: int| 0 <= i < 32 && i != REG_A0 ==> #[trigger] resumed.x[i] == trapped.x[i],
        resumed.sstatus == trapped.sstatus,
{
}

} // verus!
