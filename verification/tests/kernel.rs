use batch_os::console::print;
use batch_os::logger::{init, Level, LevelFilter, MyLogger};
use batch_os::sbi::{shutdown_reason, ResetReason};
use batch_os::sync::UPSafeCell;
use batch_os::syscall::{console_write_result, syscall, SyscallCall};
use batch_os::user_lib::syscall::{sys_exit, sys_write};

#[test]
fn console_prints_code_points() {
    assert_eq!(print("Hi\n"), vec![72usize, 105, 10]);
    assert_eq!(print(""), Vec::<usize>::new());
    assert_eq!(print("é€"), vec![0xe9usize, 0x20ac]);
}

#[test]
fn logger_enables_every_level() {
    let l = MyLogger;
    for level in [Level::Error, Level::Warn, Level::Info, Level::Debug, Level::Trace] {
        assert!(l.enabled(level));
    }
}

fn codes(text: &str) -> Vec<usize> {
    text.chars().map(|c| c as usize).collect()
}

#[test]
fn logger_prints_hello_world_line() {
    let l = MyLogger;
    assert_eq!(
        l.log(Level::Info, "Hello, world!"),
        Some(codes("\x1b[34m[INFO][S] Hello, world!\x1b[0m\n"))
    );
}

#[test]
fn logger_colours_and_names() {
    let l = MyLogger;
    assert_eq!(l.log(Level::Error, "e"), Some(codes("\x1b[31m[ERROR][S] e\x1b[0m\n")));
    assert_eq!(l.log(Level::Warn, "w"), Some(codes("\x1b[93m[WARN][S] w\x1b[0m\n")));
    assert_eq!(l.log(Level::Info, ""), Some(codes("\x1b[34m[INFO][S] \x1b[0m\n")));
    assert_eq!(l.log(Level::Debug, "é"), Some(codes("\x1b[32m[DEBUG][S] é\x1b[0m\n")));
    assert_eq!(l.log(Level::Trace, "t"), Some(codes("\x1b[90m[TRACE][S] t\x1b[0m\n")));
}

#[test]
fn logger_level_from_setting() {
    assert_eq!(init(Some("ERROR")), LevelFilter::Error);
    assert_eq!(init(Some("WARN")), LevelFilter::Warn);
    assert_eq!(init(Some("INFO")), LevelFilter::Info);
    assert_eq!(init(Some("DEBUG")), LevelFilter::Debug);
    assert_eq!(init(Some("TRACE")), LevelFilter::Trace);
    assert_eq!(init(Some("warn")), LevelFilter::Trace);
    assert_eq!(init(Some("")), LevelFilter::Trace);
    assert_eq!(init(None), LevelFilter::Trace);
}

#[test]
fn shutdown_reasons() {
    assert_eq!(shutdown_reason(true), ResetReason::SystemFailure);
    assert_eq!(shutdown_reason(false), ResetReason::NoReason);
}

#[test]
fn cell_gives_back_what_was_written() {
    let mut cell = UPSafeCell::new(5u32);
    assert_eq!(*cell.exclusive_access(), 5);
    *cell.exclusive_access() = 9;
    assert_eq!(*cell.exclusive_access(), 9);
}

#[test]
fn kernel_decodes_console_write() {
    assert_eq!(syscall(64, [1, 0x1000, 12]), SyscallCall::WriteConsole { buf: 0x1000, len: 12 });
    assert_eq!(syscall(64, [2, 0x1000, 12]), SyscallCall::Unsupported { id: 64 });
}

#[test]
fn kernel_decodes_exit() {
    assert_eq!(syscall(93, [3, 0, 0]), SyscallCall::Exit { exit_code: 3 });
    assert_eq!(syscall(93, [usize::MAX, 0, 0]), SyscallCall::Exit { exit_code: -1 });
}

#[test]
fn kernel_rejects_unknown_calls() {
    assert_eq!(syscall(1, [0, 0, 0]), SyscallCall::Unsupported { id: 1 });
}

#[test]
fn user_requests_round_trip_through_the_kernel() {
    let req = sys_exit(-7);
    assert_eq!(syscall(req.id, req.args), SyscallCall::Exit { exit_code: -7 });
    let req = sys_write(1, 0x4000, 3);
    assert_eq!(syscall(req.id, req.args), SyscallCall::WriteConsole { buf: 0x4000, len: 3 });
}

#[test]
fn console_write_returns_the_length() {
    assert_eq!(console_write_result(12), 12);
    assert_eq!(console_write_result(0), 0);
    assert_eq!(console_write_result(isize::MAX as usize), isize::MAX);
}
