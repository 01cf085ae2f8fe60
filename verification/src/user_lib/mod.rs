//! The runtime of an application: the system calls it makes and its console.
use vstd::prelude::*;

pub mod console;
pub mod syscall;

use self::syscall::{sys_exit, sys_write, SyscallRequest, SYSCALL_EXIT, SYSCALL_WRITE};

verus! {

/// Writes the `len` bytes at address `buf` into the file `fd`.
pub fn write(fd: usize, buf: usize, len: usize) -> (req: SyscallRequest)
    ensures
        req.id == SYSCALL_WRITE,
        req.args@ == seq![fd, buf, len],
{
    sys_write(fd, buf, len)
}

/// Exits the application with `exit_code`.
pub fn exit(exit_code: i32) -> (req: SyscallRequest)
    ensures
        req.id == SYSCALL_EXIT,
        req.args@ == seq![exit_code as usize, 0usize, 0usize],
{
    sys_exit(exit_code)
}

} // verus!
