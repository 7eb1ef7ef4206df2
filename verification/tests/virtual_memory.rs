use lib::virtual_memory::{Main, Protect, UnsafeMemory};

#[test]
fn alloc_read() {
    let mut vm: Main<u8> = Main::new();
    let mem = vm.allocate_physical(0x8000, false, false);
    assert_eq!(mem.len(), 0x8000);
    let _x = vm.get(&mem, 104);
    let _y = vm.get(&mem, 0x7FFF);
}

#[test]
fn read_write() {
    let mut vm: Main<u8> = Main::new();
    let mem = vm.allocate_physical(0x8000, true, false);
    vm.set(&mem, 0, 100);
    vm.set(&mem, 2, 101);
    vm.set(&mem, 0x7FFF, 102);
    assert_eq!(100, vm.get(&mem, 0));
    assert_eq!(101, vm.get(&mem, 2));
    assert_eq!(102, vm.get(&mem, 0x7FFF));
}

#[test]
fn shared() {
    let mut vm: Main<u8> = Main::new();
    let mut log1 = vm.allocate_logical(0x8000, true, false);
    let mut log2 = vm.allocate_logical(0x8000, true, false);
    let phys = vm.allocate_physical(0x8000, true, false);
    Main::map(&mut log1, 0, &phys, 0, 0x8000, true, false);
    Main::map(&mut log2, 0, &phys, 0, 0x8000, true, false);
    vm.set(&log1, 0, 100);
    vm.set(&log1, 1, 101);
    vm.set(&log1, 0x7FFF, 102);
    vm.set(&log2, 1000, 103);
    vm.set(&log2, 0x7FFF, 104);
    assert_eq!(vm.get(&phys, 0), 100);
    assert_eq!(vm.get(&phys, 1), 101);
    assert_eq!(vm.get(&phys, 1000), 103);
    assert_eq!(vm.get(&phys, 0x7FFF), 104);
}

#[test]
fn shared2() {
    let mut vm: Main<u8> = Main::new();
    let mut log1 = vm.allocate_logical(5 * 0x8000, true, false);
    let mut log2 = vm.allocate_logical(5 * 0x8000, true, false);
    let mut log3 = vm.allocate_logical(8 * 0x8000, false, false);
    let phys = vm.allocate_physical(8 * 0x8000, true, false);
    Main::map(&mut log1, 0x8000, &phys, 0, 4 * 0x8000, true, false);
    Main::map(&mut log2, 0x8000, &phys, 4 * 0x8000, 4 * 0x8000, true, false);
    vm.set(&log1, 0x8000, 0);
    vm.set(&log1, 2 * 0x8000, 1);
    vm.set(&log1, 3 * 0x8000, 2);
    vm.set(&log1, 4 * 0x8000, 3);
    vm.set(&log2, 0x8000, 4);
    vm.set(&log2, 2 * 0x8000, 5);
    vm.set(&log2, 3 * 0x8000, 6);
    vm.set(&log2, 4 * 0x8000, 7);

    Main::map(&mut log3, 0, &phys, 0, 8 * 0x8000, false, false);

    assert_eq!(vm.get(&log3, 0), 0);
    assert_eq!(vm.get(&log3, 0x8000), 1);
    assert_eq!(vm.get(&log3, 2 * 0x8000), 2);
    assert_eq!(vm.get(&log3, 3 * 0x8000), 3);
    assert_eq!(vm.get(&log3, 4 * 0x8000), 4);
    assert_eq!(vm.get(&log3, 5 * 0x8000), 5);
    assert_eq!(vm.get(&log3, 6 * 0x8000), 6);
    assert_eq!(vm.get(&log3, 7 * 0x8000), 7);
}

#[test]
fn shared_u32() {
    let mut vm: Main<u32> = Main::new();
    let mut log1 = vm.allocate_logical(0x8000, true, false);
    let mut log2 = vm.allocate_logical(0x8000, true, false);
    let phys = vm.allocate_physical(0x8000, true, false);
    Main::map(&mut log1, 0, &phys, 0, 0x8000, true, false);
    Main::map(&mut log2, 0, &phys, 0, 0x8000, true, false);
    vm.set(&log1, 0, 100);
    vm.set(&log1, 1, 101);
    vm.set(&log1, 0x7FFF, 102);
    vm.set(&log2, 1000, 103);
    vm.set(&log2, 0x7FFF, 104);
    assert_eq!(vm.get(&phys, 0), 100);
    assert_eq!(vm.get(&phys, 1), 101);
    assert_eq!(vm.get(&phys, 1000), 103);
    assert_eq!(vm.get(&phys, 0x7FFF), 104);
}

#[test]
fn fresh_memory_is_zero() {
    let mut vm: Main<u32> = Main::new();
    let phys = vm.allocate_physical(16, true, false);
    for i in 0..16 {
        assert_eq!(vm.get(&phys, i), 0);
    }
    assert_eq!(phys.pages(), 0);
    let big = vm.allocate_physical(4096, true, false);
    assert_eq!(big.pages(), 4);
}

#[test]
fn logical_memory_is_its_own_until_mapped() {
    let mut vm: Main<u8> = Main::new();
    let log1 = vm.allocate_logical(0x1000, true, false);
    let log2 = vm.allocate_logical(0x1000, true, false);
    vm.set(&log1, 5, 9);
    assert_eq!(vm.get(&log1, 5), 9);
    assert_eq!(vm.get(&log2, 5), 0);
}

#[test]
fn protection_changes_every_frame() {
    let mut vm: Main<u8> = Main::new();
    let mut log = vm.allocate_logical(0x1000, false, false);
    assert!(!log.frame(0).write);
    log.set_protection(true, false);
    assert!(log.frame(0).write);
    assert!(log.frame(0xFFF).write);
    vm.set(&log, 0xFFF, 3);
    assert_eq!(vm.get(&log, 0xFFF), 3);
}

#[test]
fn dup_copies_and_rounds_up_to_pages() {
    let mut vm: Main<u8> = Main::new();
    let phys = vm.dup(&[1, 2, 3], false);
    assert_eq!(phys.len(), 4096);
    let copy = vm.create_slice(&phys);
    assert_eq!(copy.len(), 4096);
    assert_eq!(&copy[0..4], &[1, 2, 3, 0]);
    assert_eq!(copy[4095], 0);
}
