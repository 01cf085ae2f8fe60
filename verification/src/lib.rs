//! A batch operating system for RISC-V, with its user-side runtime.
//!
//! The library holds the decisions of the kernel: which application runs
//! next and where its image and trap context go, how a trap is dispatched,
//! how the logger colours and filters its output; and, on the user side, how
//! a system call request is laid out.  Everything that touches the hardware
//! (CSRs, raw memory, `ecall`, SBI) is done by the caller with the values
//! these functions hand back.
use vstd::prelude::*;

pub mod batch;
pub mod console;
pub mod logger;
pub mod sync;
pub mod syscall;
pub mod sbi;
pub mod trap;
pub mod user_lib;
