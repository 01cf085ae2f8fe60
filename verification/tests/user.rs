use batch_os::user_lib::console::{print, STDOUT};
use batch_os::user_lib::syscall::{sys_exit, sys_write, SyscallRequest, SYSCALL_EXIT, SYSCALL_WRITE};
use batch_os::user_lib::exit;

#[test]
fn syscall_numbers() {
    assert_eq!(SYSCALL_WRITE, 64);
    assert_eq!(SYSCALL_EXIT, 93);
    assert_eq!(STDOUT, 1);
}

#[test]
fn write_request() {
    assert_eq!(sys_write(1, 0x1000, 5), SyscallRequest { id: 64, args: [1, 0x1000, 5] });
    assert_eq!(batch_os::user_lib::write(2, 0x2000, 0), SyscallRequest { id: 64, args: [2, 0x2000, 0] });
}

#[test]
fn exit_request() {
    assert_eq!(sys_exit(0), SyscallRequest { id: 93, args: [0, 0, 0] });
    assert_eq!(exit(-1), SyscallRequest { id: 93, args: [usize::MAX, 0, 0] });
}

#[test]
fn print_writes_the_bytes_to_stdout() {
    let text = "héllo";
    assert_eq!(print(text, 0x5000), SyscallRequest { id: 64, args: [1, 0x5000, 6] });
}
