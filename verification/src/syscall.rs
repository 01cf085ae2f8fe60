//! The kernel's side of a system call: which service the registers of an
//! `ecall` from an application ask for.
use crate::user_lib::console::STDOUT;
use crate::user_lib::syscall::{SYSCALL_EXIT, SYSCALL_WRITE};
use vstd::prelude::*;

verus! {

/// A system call that an application made.
#[derive(PartialEq, Eq, Structural, Clone, Copy, Debug)]
pub enum SyscallCall {
    /// Print the `len` bytes at address `buf` on the console; the call
    /// returns `len`.
    WriteConsole { buf: usize, len: usize },
    /// The application exits with `exit_code`; the next one runs.
    Exit { exit_code: i32 },
    /// A call that the kernel does not serve: the kernel panics.
    Unsupported { id: usize },
}

/// The system call that the number `id` and the arguments `args` name.
pub open spec fn syscall_call(id: usize, args: Seq<usize>) -> SyscallCall {
    if id == SYSCALL_WRITE && args[0] == STDOUT {
        SyscallCall::WriteConsole { buf: args[1], len: args[2] }
    } else if id == SYSCALL_EXIT {
        SyscallCall::Exit { exit_code: args[0] as i32 }
    } else {
        SyscallCall::Unsupported { id }
    }
}

/// Decodes a system call: `write` to standard output, or `exit`.
pub fn syscall(id: usize, args: [usize; 3]) -> (call: SyscallCall)
    ensures
        call == syscall_call(id, args@),
{
    if id == SYSCALL_WRITE && args[0] == STDOUT {
        SyscallCall::WriteConsole { buf: args[1], len: args[2] }
    } else if id == SYSCALL_EXIT {
        SyscallCall::Exit { exit_code: args[0] as i32 }
    } else {
        SyscallCall::Unsupported { id }
    }
}

/// What an application asks with `exit` is what the kernel serves: the
/// exit code comes through the register unchanged.
pub proof fn lemma_exit_request_round_trip(exit_code: i32)
    ensures
        syscall_call(SYSCALL_EXIT, seq![exit_code as usize, 0usize, 0usize])
            == (SyscallCall::Exit { exit_code }),
{
    assert((exit_code as usize) as i32 == exit_code) by (bit_vector);
}

/// What an application asks with `write` on standard output is what the
/// kernel serves: the same buffer and length.
pub proof fn lemma_console_write_round_trip(buf: usize, len: usize)
    ensures
        syscall_call(SYSCALL_WRITE, seq![STDOUT, buf, len]) == (SyscallCall::WriteConsole { buf, len }),
{
}

} // verus!

verus! {

/// What the `write` system call returns to the application after the
/// kernel has printed the `len` bytes of a console write: the number of
/// bytes written, which is all of them.
pub fn console_write_result(len: usize) -> (written: isize)
    requires
        len <= isize::MAX,
    ensures
        written == len,
        0 <= written,
{
    len as isize
}

} // verus!
