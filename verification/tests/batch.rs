use batch_os::batch::{
    init, load_app_image, log_app_info, run_next_app, AppImage, AppInfo, AppManager, KernelStack,
    RunStep, UserStack, APP_BASE_ADDRESS, APP_SIZE_LIMIT, KERNEL_STACK_SIZE, MAX_APP_NUM,
    USER_STACK_SIZE,
};
use batch_os::sync::UPSafeCell;

fn three_apps() -> AppManager {
    AppManager::new(3, &[0x8020_0000, 0x8020_1000, 0x8020_1800, 0x8020_4000])
}

#[test]
fn stack_tops() {
    let k = KernelStack { base: 0x1000 };
    let u = UserStack { base: 0x8000 };
    assert_eq!(k.get_sp(), 0x1000 + KERNEL_STACK_SIZE);
    assert_eq!(u.get_sp(), 0x8000 + USER_STACK_SIZE);
    assert_eq!(k.get_sp() % 4096, 0);
    assert_eq!(u.get_sp() % 4096, 0);
    assert_eq!(KERNEL_STACK_SIZE, 8192);
    assert_eq!(USER_STACK_SIZE, 8192);
}

#[test]
fn context_is_pushed_at_the_top_of_the_kernel_stack() {
    let k = KernelStack { base: 0x1000 };
    let addr = k.push_context();
    assert_eq!(addr, 0x1000 + 8192 - 34 * core::mem::size_of::<usize>());
    assert!(addr >= k.base);
}

#[test]
fn manager_lists_its_apps() {
    let m = three_apps();
    assert_eq!(m.get_current_app(), 0);
    let infos = m.log_app_info();
    assert_eq!(
        infos,
        vec![
            AppInfo { id: 0, start: 0x8020_0000, end: 0x8020_1000 },
            AppInfo { id: 1, start: 0x8020_1000, end: 0x8020_1800 },
            AppInfo { id: 2, start: 0x8020_1800, end: 0x8020_4000 },
        ]
    );
}

#[test]
fn empty_manager_lists_nothing_and_shuts_down() {
    let mut m = AppManager::new(0, &[0x8020_0000]);
    assert!(m.log_app_info().is_empty());
    assert_eq!(m.load_app(0), None);
    let step = m.run_next_app(&KernelStack { base: 0x1000 }, &UserStack { base: 0x8000 }, 0);
    assert_eq!(step, RunStep::Shutdown { failure: false });
    assert_eq!(m.get_current_app(), 0);
}

#[test]
fn full_table() {
    let starts: Vec<usize> = (0..=MAX_APP_NUM).map(|i| 0x1000 * i).collect();
    let m = AppManager::new(MAX_APP_NUM, &starts);
    let infos = m.log_app_info();
    assert_eq!(infos.len(), 16);
    assert_eq!(infos[15], AppInfo { id: 15, start: 0xf000, end: 0x10000 });
    assert_eq!(m.load_app(15), Some(AppImage { src: 0xf000, len: 0x1000 }));
    assert_eq!(m.load_app(16), None);
}

#[test]
fn load_app_gives_the_image_bounds() {
    let m = three_apps();
    assert_eq!(m.load_app(0), Some(AppImage { src: 0x8020_0000, len: 0x1000 }));
    assert_eq!(m.load_app(1), Some(AppImage { src: 0x8020_1000, len: 0x800 }));
    assert_eq!(m.load_app(2), Some(AppImage { src: 0x8020_1800, len: 0x2800 }));
    assert_eq!(m.load_app(3), None);
    assert_eq!(m.load_app(100), None);
}

#[test]
fn move_to_next_app_counts_up() {
    let mut m = three_apps();
    m.move_to_next_app();
    m.move_to_next_app();
    assert_eq!(m.get_current_app(), 2);
}

#[test]
fn apps_run_once_each_in_order_then_shutdown() {
    let mut m = three_apps();
    let k = KernelStack { base: 0x10_0000 };
    let u = UserStack { base: 0x20_0000 };
    let sstatus: usize = 0x8000_0000_0080_0122;
    let mut ran = Vec::new();
    for _ in 0..5 {
        match m.run_next_app(&k, &u, sstatus) {
            RunStep::Run { app_id, image, context, context_addr } => {
                assert_eq!(image, m_image(app_id));
                assert_eq!(context.sepc, APP_BASE_ADDRESS);
                assert_eq!(context.x[2], 0x20_0000 + USER_STACK_SIZE);
                assert!(context.x.iter().enumerate().all(|(i, r)| i == 2 || *r == 0));
                assert_eq!(context.sstatus, sstatus & !0x100);
                assert_eq!(context.sstatus, 0x8000_0000_0080_0022);
                assert_eq!(context.sstatus & 0x100, 0);
                assert_eq!(context_addr, 0x10_0000 + KERNEL_STACK_SIZE - 34 * 8);
                assert!(context_addr + 34 * 8 <= u.base || u.base + USER_STACK_SIZE <= context_addr);
                ran.push(Some(app_id));
            }
            RunStep::Shutdown { failure } => {
                assert!(!failure);
                ran.push(None)
            }
        }
    }
    assert_eq!(ran, vec![Some(0), Some(1), Some(2), None, None]);
    assert_eq!(m.get_current_app(), 3);
}

fn m_image(id: usize) -> AppImage {
    three_apps().load_app(id).unwrap()
}

#[test]
fn free_functions_go_through_the_cell() {
    let mut cell = UPSafeCell::new(three_apps());
    let infos = init(&mut cell);
    assert_eq!(infos.len(), 3);
    assert_eq!(log_app_info(&mut cell), infos);
    let k = KernelStack { base: 0x10_0000 };
    let u = UserStack { base: 0x20_0000 };
    match run_next_app(&mut cell, &k, &u, 0) {
        RunStep::Run { app_id, .. } => assert_eq!(app_id, 0),
        RunStep::Shutdown { .. } => panic!("an application is left"),
    }
    assert_eq!(cell.exclusive_access().get_current_app(), 1);
}

#[test]
fn loading_clears_then_copies() {
    let mut area = vec![0xaau8; APP_SIZE_LIMIT + 16];
    let image = [1u8, 2, 3, 4, 5];
    load_app_image(&mut area, &image);
    assert_eq!(&area[..5], &image);
    assert!(area[5..APP_SIZE_LIMIT].iter().all(|b| *b == 0));
    assert!(area[APP_SIZE_LIMIT..].iter().all(|b| *b == 0xaa));
}

#[test]
fn loading_an_image_larger_than_the_limit() {
    let mut area = vec![0xaau8; APP_SIZE_LIMIT + 8];
    let image = vec![7u8; APP_SIZE_LIMIT + 4];
    load_app_image(&mut area, &image);
    assert!(area[..APP_SIZE_LIMIT + 4].iter().all(|b| *b == 7));
    assert!(area[APP_SIZE_LIMIT + 4..].iter().all(|b| *b == 0xaa));
}

#[test]
fn constants() {
    assert_eq!(MAX_APP_NUM, 16);
    assert_eq!(APP_BASE_ADDRESS, 0x80400000);
    assert_eq!(APP_SIZE_LIMIT, 0x20000);
}
