# batch_os

A batch operating system for RISC-V (S-mode kernel and user runtime), whose
decisions are verified with Verus.

- `src/` — the verified library: the application table and the order in
  which applications run (`batch`), trap contexts and trap dispatch (`trap`),
  the kernel's side of system calls (`syscall`), the logger's filter and
  colours (`logger`), console output (`console`), shutdown reasons (`sbi`),
  the uniprocessor cell (`sync`), and the user-side system call layout
  (`user_lib`).
- `app/` — the hardware edge: CSR reads and writes, raw memory, `ecall`,
  SBI calls, the `log` front end; it hands plain values to the library and
  acts on what comes back.
- `tests/` — tests of the library on concrete values.
