use lib::hardware::memory16::Memory16;
use lib::hardware::sms_memory::{MainCartridgeRam, MemoryPage, SmsMemoryMapper, SmsMemoryState};
use lib::virtual_memory::sms::SmsVirtualMemory;

fn make_state() -> SmsMemoryState {
    let mut rom0 = [0u8; 0x4000];
    rom0[1] = 1;
    rom0[2] = 2;
    rom0[0x3FFF] = 3;
    let mut rom1 = [0u8; 0x4000];
    rom1[1] = 11;
    rom1[2] = 12;
    rom1[0x3FFF] = 13;

    let mut ram0 = [0u8; 0x400];
    ram0[1] = 21;
    ram0[2] = 22;

    let mut cart_ram = [0u8; 0x4000];
    cart_ram[1] = 31;
    cart_ram[2] = 32;

    let mut rom = Vec::new();
    rom.extend_from_slice(&rom0);
    rom.extend_from_slice(&rom1);
    let mut system_ram = [0u8; 0x4000];
    for i in 0..8 {
        system_ram[i * 0x400..(i + 1) * 0x400].copy_from_slice(&ram0);
    }

    SmsMemoryState {
        rom,
        system_ram: Box::new(system_ram),
        system_ram_len: 0x2000,
        main_cartridge_ram: MainCartridgeRam::One(Box::new(cart_ram)),
        half_cartridge_ram: None,
        pages: [
            MemoryPage::default(),
            MemoryPage::default(),
            MemoryPage::default(),
            MemoryPage::default(),
        ],
        mapper: SmsMemoryMapper::default(),
    }
}

#[test]
fn state() {
    let s = make_state();
    let mut vm = SmsVirtualMemory::load(&s).unwrap();
    assert_eq!(vm.read(0), 0);
    assert_eq!(vm.read(1), 1);
    assert_eq!(vm.read(2), 2);
    assert_eq!(vm.read(0x3FFF), 3);
    assert_eq!(vm.read(0x4000), 0);
    assert_eq!(vm.read(0x4001), 1);
    assert_eq!(vm.read(0x4002), 2);
    assert_eq!(vm.read(0x7FFF), 3);
    assert_eq!(vm.read(0x8000), 0);
    assert_eq!(vm.read(0x8001), 1);
    assert_eq!(vm.read(0x8002), 2);
    assert_eq!(vm.read(0xBFFF), 3);
    assert_eq!(vm.read(0xC000), 0);
    assert_eq!(vm.read(0xC001), 1);
    assert_eq!(vm.read(0xC002), 2);
    assert_eq!(vm.read(0xFFFF), 3);
    vm.map_page(3, MemoryPage::SystemRam);
    assert_eq!(vm.read(0xC000), 0);
    assert_eq!(vm.read(0xC001), 21);
    assert_eq!(vm.read(0xC002), 22);
    assert_eq!(vm.read(0xC400), 0);
    assert_eq!(vm.read(0xC401), 21);
    assert_eq!(vm.read(0xC402), 22);
    assert_eq!(vm.read(0xE000), 0);
    assert_eq!(vm.read(0xE001), 21);
    assert_eq!(vm.read(0xE002), 22);

    vm.write(0xC001, 51);
    vm.map_page(2, MemoryPage::SystemRam);
    assert_eq!(vm.read(0x8001), 51);

    vm.map_page(1, MemoryPage::FirstCartridgeRam(0));
    assert_eq!(vm.read(0x4000), 0);
    assert_eq!(vm.read(0x4001), 31);
    assert_eq!(vm.read(0x4002), 32);

    vm.map_page(0, MemoryPage::RomButFirstKiB(1));
    assert_eq!(vm.read(0), 0);
    assert_eq!(vm.read(1), 1);
    assert_eq!(vm.read(2), 2);
    assert_eq!(vm.read(0x3FFF), 13);
}

#[test]
fn sega_mapper_registers_map_pages() {
    let s = make_state();
    let mut vm = SmsVirtualMemory::load(&s).unwrap();
    vm.map_page(3, MemoryPage::SystemRam);
    // page 1 into slot 1, through the register at 0xFFFE
    vm.write(0xFFFE, 1);
    assert_eq!(vm.page(1), MemoryPage::Rom(1));
    assert_eq!(vm.read(0x4001), 11);
    // page numbers wrap around the number of ROM pages
    vm.write(0xFFFF, 3);
    assert_eq!(vm.page(2), MemoryPage::Rom(1));
    // cartridge RAM into slot 2
    vm.write(0xFFFC, 0x08);
    assert_eq!(vm.page(2), MemoryPage::FirstCartridgeRam(1));
    assert_eq!(vm.read(0x8001), 31);
    // the register writes also land in system RAM
    assert_eq!(vm.read(0xFFFC), 0x08);
}

#[test]
fn writes_to_rom_change_nothing() {
    let s = make_state();
    let mut vm = SmsVirtualMemory::load(&s).unwrap();
    vm.write(0x0001, 99);
    vm.write(0x4002, 99);
    assert_eq!(vm.read(0x0001), 1);
    assert_eq!(vm.read(0x4002), 2);
}

#[test]
fn state_round_trip_keeps_every_byte() {
    let s = make_state();
    let mut vm = SmsVirtualMemory::load(&s).unwrap();
    vm.map_page(3, MemoryPage::SystemRam);
    vm.write(0xC123, 77);
    vm.map_page(0, MemoryPage::RomButFirstKiB(1));
    let saved = vm.state();
    assert_eq!(saved.system_ram_len, 0x2000);
    assert_eq!(saved.system_ram[0x123], 77);
    let back = SmsVirtualMemory::load(&saved).unwrap();
    let mut a: u32 = 0;
    while a < 0x10000 {
        assert_eq!(back.read(a as u16), vm.read(a as u16));
        a += 1;
    }
}

#[test]
fn invalid_rom_size_is_refused() {
    let mut s = make_state();
    s.rom = Vec::new();
    assert!(SmsVirtualMemory::load(&s).is_err());
}

#[test]
fn half_cartridge_ram_is_allocated_on_demand() {
    let s = make_state();
    let mut vm = SmsVirtualMemory::load(&s).unwrap();
    vm.map_page(1, MemoryPage::HalfCartridgeRam(1));
    assert_eq!(vm.read(0x4001), 11);
    assert_eq!(vm.read(0x6001), 0);
    vm.write(0x6001, 5);
    vm.write(0x4001, 6);
    assert_eq!(vm.read(0x6001), 5);
    assert_eq!(vm.read(0x4001), 11);
}

#[test]
fn ram_accessors_see_what_reads_see() {
    let s = make_state();
    let mut vm = SmsVirtualMemory::load(&s).unwrap();
    assert_eq!(vm.rom_len(), 0x8000);
    assert_eq!(vm.rom_read(0x4001), 11);
    assert_eq!(vm.system_ram_len(), 0x2000);
    assert_eq!(vm.system_ram_read(0x401), 21);
    assert_eq!(vm.main_cartridge_ram_len(), 0x4000);
    assert_eq!(vm.main_cartridge_ram_read(1), 31);
    assert_eq!(vm.half_cartridge_ram_len(), 0);

    vm.system_ram_write(0x10, 42);
    vm.main_cartridge_ram_write(0x20, 43);
    vm.map_page(3, MemoryPage::SystemRam);
    vm.map_page(2, MemoryPage::FirstCartridgeRam(0));
    assert_eq!(vm.read(0xC010), 42);
    assert_eq!(vm.read(0xE010), 42);
    assert_eq!(vm.read(0x8020), 43);

    vm.map_page(1, MemoryPage::SecondCartridgeRam(0));
    assert_eq!(vm.main_cartridge_ram_len(), 0x8000);
    vm.write(0x4005, 44);
    assert_eq!(vm.main_cartridge_ram_read(0x4005), 44);
}

#[test]
fn set_system_ram_kib_gives_zeroed_ram() {
    let s = make_state();
    let mut vm = SmsVirtualMemory::load(&s).unwrap();
    vm.map_page(3, MemoryPage::SystemRam);
    assert_eq!(vm.read(0xC001), 21);
    vm.set_system_ram_kib(8);
    assert_eq!(vm.system_ram_len(), 0x1000);
    assert_eq!(vm.read(0xC001), 0);
    vm.write(0xC001, 9);
    assert_eq!(vm.read(0xD001), 9);
    assert_eq!(vm.page(3), MemoryPage::SystemRam);
    assert_eq!(vm.mapper(), SmsMemoryMapper::Sega);
}

#[test]
fn virtual_memory_reads_and_writes_like_the_plain_memory() {
    let s = make_state();
    let mut vm = SmsVirtualMemory::load(&s).unwrap();
    let mut plain = make_state();
    let writes: [(u16, u8); 8] = [
        (0xFFFC, 0x08),
        (0x8003, 5),
        (0xFFFF, 1),
        (0xFFFE, 1),
        (0xFFFD, 1),
        (0xC010, 6),
        (0xFFFC, 0x0C),
        (0x9000, 7),
    ];
    for (a, v) in writes.iter() {
        vm.write(*a, *v);
        plain.write(*a, *v);
        let mut b: u32 = 0;
        while b < 0x10000 {
            assert_eq!(vm.read(b as u16), plain.read(b as u16), "address {:X}", b);
            b += 0x7;
        }
    }
}
