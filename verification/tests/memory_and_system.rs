use lib::hardware::memory16::Memory16;
use lib::hardware::sms_irq::SmsPauseInterruptState;
use lib::hardware::sms_memory::{
    MainCartridgeRam, MemoryPage, SmsMemoryLoadError, SmsMemoryMapper, SmsMemoryState,
};
use lib::hardware::sms_vdp::{Kind, TvSystem};
use lib::hardware::z80::internal::Reg16;
use lib::memo::{Inbox, NothingInbox};
use lib::systems::sms::emulator::{SmsState, TimeStatus};

fn rom(pages: usize) -> Vec<u8> {
    let mut v = vec![0u8; pages * 0x4000];
    for p in 0..pages {
        v[p * 0x4000] = p as u8;
        v[p * 0x4000 + 1] = 0xA0 + p as u8;
    }
    v
}

#[test]
fn machine_from_rom_starts_as_after_reset() {
    let s = SmsState::from_rom(rom(4), SmsMemoryMapper::Sega, TvSystem::Pal, Kind::Sms2);
    assert_eq!(s.z80.reg16(Reg16::SP), 0xDFEE);
    assert_eq!(s.z80.reg16(Reg16::PC), 0);
    assert_eq!(s.vdp.kind, Kind::Sms2);
    assert_eq!(s.vdp.tv_system, TvSystem::Pal);
    assert_eq!(s.pause_irq, SmsPauseInterruptState::Free);
    assert_eq!(s.memory.system_ram_len, 0x2000);
    assert_eq!(
        s.memory.pages,
        [MemoryPage::Rom(0), MemoryPage::Rom(1), MemoryPage::Rom(2), MemoryPage::SystemRam]
    );
    let c = SmsState::from_rom(rom(4), SmsMemoryMapper::Codemasters, TvSystem::Ntsc, Kind::Sms);
    assert_eq!(c.memory.pages[2], MemoryPage::Rom(0));
}

#[test]
fn ram_keeps_what_is_written() {
    let mut s = SmsState::from_rom(rom(4), SmsMemoryMapper::Sega, TvSystem::Ntsc, Kind::Sms).memory;
    s.write(0xC123, 0x5A);
    assert_eq!(s.read(0xC123), 0x5A);
    // system RAM of 8 KiB is mirrored through the slot
    assert_eq!(s.read(0xE123), 0x5A);
    // ROM ignores writes
    s.write(0x0001, 0x77);
    assert_eq!(s.read(0x0001), 0xA0);
}

#[test]
fn sega_mapper_registers() {
    let mut s = SmsState::from_rom(rom(4), SmsMemoryMapper::Sega, TvSystem::Ntsc, Kind::Sms).memory;
    s.write(0xFFFE, 3);
    assert_eq!(s.page(1), MemoryPage::Rom(3));
    assert_eq!(s.read(0x4000), 3);
    // ROM pages are taken modulo the number of pages
    s.write(0xFFFF, 6);
    assert_eq!(s.page(2), MemoryPage::Rom(2));
    // the first KiB of slot 0 always shows the start of the ROM
    s.write(0xFFFD, 1);
    assert_eq!(s.page(0), MemoryPage::RomButFirstKiB(1));
    assert_eq!(s.read(0x0001), 0xA0);
    // cartridge RAM in slot 2
    s.write(0xFFFC, 0x08);
    assert_eq!(s.page(2), MemoryPage::FirstCartridgeRam(2));
    s.write(0x8010, 0x42);
    assert_eq!(s.read(0x8010), 0x42);
    assert!(s.main_cartridge_ram != MainCartridgeRam::Zero);
}

#[test]
fn codemasters_mapper_registers() {
    let mut s =
        SmsState::from_rom(rom(4), SmsMemoryMapper::Codemasters, TvSystem::Ntsc, Kind::Sms).memory;
    s.write(0x8000, 3);
    assert_eq!(s.page(2), MemoryPage::Rom(3));
    assert_eq!(s.read(0x8001), 0xA3);
}

#[test]
fn loading_checks_the_rom() {
    let s = SmsState::from_rom(rom(2), SmsMemoryMapper::Sega, TvSystem::Ntsc, Kind::Sms).memory;
    assert!(SmsMemoryState::load(s).is_ok());
    let empty = SmsState::from_rom(Vec::new(), SmsMemoryMapper::Sega, TvSystem::Ntsc, Kind::Sms).memory;
    assert!(SmsMemoryState::load(empty).is_err());
}

#[test]
fn nothing_inbox_is_inactive() {
    let mut inbox: NothingInbox<u32> = NothingInbox::default();
    assert!(!inbox.active());
    assert!(!inbox.holding());
    inbox.receive(3);
}

#[test]
fn time_status_starts_unheld() {
    let t = TimeStatus::new(1000, Some(3579545));
    assert_eq!(t.start_cycles, 1000);
    assert_eq!(t.frequency, Some(3579545));
    assert!(!t.holding);
}

#[test]
fn selected_page_must_be_below_the_page_count() {
    let mut s = SmsState::from_rom(rom(2), SmsMemoryMapper::Sega, TvSystem::Ntsc, Kind::Sms).memory;
    s.pages = [MemoryPage::Rom(2), MemoryPage::Rom(0), MemoryPage::Rom(0), MemoryPage::SystemRam];
    assert_eq!(
        s.check_valid(),
        Some(SmsMemoryLoadError::InvalidRomPageSelected { slot: 0, selected: 2, found: 2 })
    );
    s.pages = [MemoryPage::Rom(0), MemoryPage::RomButFirstKiB(1), MemoryPage::Rom(1), MemoryPage::SystemRam];
    assert_eq!(s.check_valid(), None);
}

#[test]
fn rom_size_must_be_whole_pages() {
    let mut s = SmsState::from_rom(rom(1), SmsMemoryMapper::Sega, TvSystem::Ntsc, Kind::Sms).memory;
    s.rom = vec![0u8; 0x2000];
    s.pages = [MemoryPage::Rom(0); 4];
    assert_eq!(s.check_valid(), Some(SmsMemoryLoadError::InvalidRomSize(0x2000)));
    s.rom = vec![0u8; 0x404000];
    assert_eq!(s.check_valid(), Some(SmsMemoryLoadError::InvalidRomSize(0x404000)));
}

#[test]
fn the_largest_rom_has_256_pages() {
    let mut s = SmsState::from_rom(rom(1), SmsMemoryMapper::Sega, TvSystem::Ntsc, Kind::Sms).memory;
    s.rom = vec![0u8; 0x400000];
    s.pages = [MemoryPage::Rom(0), MemoryPage::Rom(1), MemoryPage::Rom(255), MemoryPage::SystemRam];
    assert_eq!(s.check_valid(), None);
}
