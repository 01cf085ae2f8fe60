//! The system calls of an application: how each one is laid out in the
//! registers of the `ecall` that makes it.
use vstd::prelude::*;

verus! {

/// Number of the `write` system call.
pub const SYSCALL_WRITE: usize = 64;
/// Number of the `exit` system call.
pub const SYSCALL_EXIT: usize = 93;

/// A system call, as the application hands it to `ecall`: its number goes
/// into `a7` and its arguments into `a0`, `a1`, `a2`; the result comes back
/// in `a0`.
#[derive(Clone, Copy, Debug, PartialEq, Eq)]
pub struct SyscallRequest {
    pub id: usize,
    pub args: [usize; 3],
}

/// Writes the `len` bytes at address `buf` into the file `fd`; the call
/// returns how many bytes were written.
pub fn sys_write(fd: usize, buf: usize, len: usize) -> (req: SyscallRequest)
    ensures
        req.id == SYSCALL_WRITE,
        req.args@ == seq![fd, buf, len],
{
    let req = SyscallRequest { id: SYSCALL_WRITE, args: [fd, buf, len] };
    assert(req.args@ =~= seq![fd, buf, len]);
    req
}

/// Exits the application with `exit_code` and hands control back to the
/// kernel; the call does not return.
pub fn sys_exit(exit_code: i32) -> (req: SyscallRequest)
    ensures
        req.id == SYSCALL_EXIT,
        req.args@ == seq![exit_code as usize, 0usize, 0usize],
{
    let req = SyscallRequest { id: SYSCALL_EXIT, args: [exit_code as usize, 0, 0] };
    assert(req.args@ =~= seq![exit_code as usize, 0usize, 0usize]);
    req
}

} // verus!
