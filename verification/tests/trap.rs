use batch_os::trap::context::TrapContext;
use batch_os::trap::{complete_syscall, trap_handler, TrapOutcome};

fn sample_context() -> TrapContext {
    let mut x = [0usize; 32];
    for (i, r) in x.iter_mut().enumerate() {
        *r = 100 + i;
    }
    TrapContext { x, sstatus: 0x122, sepc: 0x8040_0010 }
}

#[test]
fn set_sp_writes_x2_only() {
    let mut cx = sample_context();
    cx.set_sp(0xdead_0000);
    assert_eq!(cx.x[2], 0xdead_0000);
    assert_eq!(cx.x[1], 101);
    assert_eq!(cx.x[3], 103);
    assert_eq!(cx.sepc, 0x8040_0010);
    assert_eq!(cx.sstatus, 0x122);
}

#[test]
fn app_init_context_starts_in_user_mode() {
    let cx = TrapContext::app_init_context(0x8040_0000, 0x8030_2000, 0x8000_0000_0000_0122);
    assert_eq!(cx.sepc, 0x8040_0000);
    assert_eq!(cx.x[2], 0x8030_2000);
    for i in 0..32 {
        if i != 2 {
            assert_eq!(cx.x[i], 0);
        }
    }
    assert_eq!(cx.sstatus & 0x100, 0);
    assert_eq!(cx.sstatus, 0x8000_0000_0000_0022);
}

#[test]
fn app_init_context_keeps_every_other_sstatus_bit() {
    let cx = TrapContext::app_init_context(0, 0, usize::MAX);
    assert_eq!(cx.sstatus, usize::MAX & !0x100);
    let cx = TrapContext::app_init_context(0, 0, 0x80_0000);
    assert_eq!(cx.sstatus, 0x80_0000);
    let cx = TrapContext::app_init_context(0, 0, 0x100);
    assert_eq!(cx.sstatus, 0);
}

#[test]
fn trap_context_size() {
    assert_eq!(TrapContext::size_in_bytes(), 34 * core::mem::size_of::<usize>());
}

#[test]
fn ecall_is_a_syscall() {
    let mut cx = sample_context();
    let before = cx;
    let out = trap_handler(&mut cx, 8);
    assert_eq!(out, TrapOutcome::Syscall { id: 117, args: [110, 111, 112] });
    assert_eq!(cx.sepc, before.sepc + 4);
    assert_eq!(cx.x, before.x);
    assert_eq!(cx.sstatus, before.sstatus);
    complete_syscall(&mut cx, -1);
    assert_eq!(cx.x[10], usize::MAX);
    assert_eq!(cx.x[11], 111);
    assert_eq!(cx.sepc, before.sepc + 4);
}

#[test]
fn other_exceptions_kill_the_app() {
    for code in [0usize, 1, 2, 3, 5, 7, 9, 10, 12, 13, 15, 24] {
        let mut cx = sample_context();
        let before = cx;
        let out = trap_handler(&mut cx, code);
        assert_eq!(out, TrapOutcome::KillApp { exception: code });
        assert_eq!(cx, before);
    }
}

#[test]
fn complete_syscall_stores_the_result() {
    let mut cx = sample_context();
    complete_syscall(&mut cx, 42);
    assert_eq!(cx.x[10], 42);
    assert_eq!(cx.x[9], 109);
}
