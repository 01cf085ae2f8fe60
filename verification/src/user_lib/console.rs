//! Console output of an application, through the `write` system call.
use super::syscall::SyscallRequest;
use vstd::prelude::*;

verus! {

/// The file of standard output.
pub const STDOUT: usize = 1;

/// Prints `text` (already formatted), which lies at address `text_addr`:
/// the request that writes its bytes (its UTF-8 encoding) to standard output.
pub fn print(text: &str, text_addr: usize) -> (req: SyscallRequest)
    ensures
        req.id == super::syscall::SYSCALL_WRITE,
        req.args@ == seq![STDOUT, text_addr, text.len()],
{
    crate::user_lib::write(STDOUT, text_addr, text.len())
}

} // verus!
