//! Memory maps for the Sega Master System.
//!
//! Logical memory is four 16 KiB slots; each is mapped to a page of ROM, of
//! system RAM, or of RAM on the cartridge. Writes to certain addresses are
//! registers of the cartridge's memory mapper, which change the mapping.
use vstd::prelude::*;
use vstd::array::spec_array_update;
use crate::hardware::memory16::Memory16;

verus! {

/// The memory mapper on the cartridge.
#[derive(Clone, Copy, Debug, PartialEq, Eq, Structural)]
pub enum SmsMemoryMapper {
    Sega,
    Codemasters,
    /// The SG-1000 has no mapper; the parameter is its KiB of system RAM.
    Sg1000(usize),
}

/// A 16 KiB page of memory.
///
/// This is used to indicate, for each of four 16 KiB slots of logical memory,
/// what physical page of memory it's mapped to.
#[derive(Clone, Copy, Debug, PartialEq, Eq, Structural)]
pub enum MemoryPage {
    /// The system RAM, mirrored across 16 KiB.
    SystemRam,
    /// The first 16 KiB page of RAM on the cartridge.
    FirstCartridgeRam(u8),
    /// The second 16 KiB page of RAM on the cartridge.
    SecondCartridgeRam(u8),
    /// The first half of the slot is mapped to a page of ROM indicated by the
    /// parameter; the second half is mapped to 8 KiB of on-cartridge RAM.
    HalfCartridgeRam(u8),
    /// The page of ROM indicated by the parameter.
    Rom(u8),
    /// The page of ROM indicated by the parameter, except the first KiB of
    /// logical memory is mapped to the first KiB of physical ROM.
    RomButFirstKiB(u8),
}

impl SmsMemoryMapper {
    pub fn default() -> (r: SmsMemoryMapper)
        ensures
            r == SmsMemoryMapper::Sega,
    {
        SmsMemoryMapper::Sega
    }
}

impl MemoryPage {
    pub fn default() -> (r: MemoryPage)
        ensures
            r == MemoryPage::Rom(0),
    {
        MemoryPage::Rom(0)
    }
}

/// On-cartridge RAM for the Sega Memory Mapper: 0, 16 or 32 KiB, allocated
/// when the game first uses it.
#[derive(Debug, PartialEq, Eq)]
pub enum MainCartridgeRam {
    Zero,
    One(Box<[u8; 0x4000]>),
    Two(Box<[u8; 0x4000]>, Box<[u8; 0x4000]>),
}

/// Errors from loading an `SmsMemoryState`.
#[derive(Clone, Copy, Debug, PartialEq, Eq, Structural)]
pub enum SmsMemoryLoadError {
    /// The ROM size is not valid: it is 0, it is not a multiple of 0x4000
    /// (the size of a memory page), or it is bigger than 0x400000 (8 bits
    /// select a page and 14 bits an offset within the slot, which leaves an
    /// effective 22 bit address).
    InvalidRomSize(usize),
    /// A slot is mapped to a ROM page that is not smaller than the number of
    /// pages the ROM has (`found`).
    InvalidRomPageSelected { slot: u8, selected: u8, found: u8 },
}

/// The largest amount of system RAM that one slot shows (more is never
/// addressed).
pub const SYSTEM_RAM_CAPACITY: usize = 0x4000;

/// Captures the state of the memory in the Master System: the ROM, system
/// RAM, the main cartridge RAM, the half page cartridge RAM, the mappings of
/// the four slots of logical memory, and the mapper.
///
/// System RAM is `system_ram_len` bytes, the first ones of `system_ram`.
#[derive(Debug, PartialEq, Eq)]
pub struct SmsMemoryState {
    pub rom: Vec<u8>,
    pub system_ram: Box<[u8; 0x4000]>,
    pub system_ram_len: usize,
    pub main_cartridge_ram: MainCartridgeRam,
    pub half_cartridge_ram: Option<Box<[u8; 0x2000]>>,
    pub pages: [MemoryPage; 4],
    pub mapper: SmsMemoryMapper,
}

/// Byte `i` of the ROM (0 past its end).
pub open spec fn rom_byte(rom: Seq<u8>, i: int) -> u8 {
    if 0 <= i < rom.len() {
        rom[i]
    } else {
        0
    }
}

/// `x % n`, or `x` when `n` is 0.
pub open spec fn page_mod(x: u8, n: u8) -> u8 {
    if n == 0 {
        x
    } else {
        x % n
    }
}

/// A zeroed 16 KiB page.
pub open spec fn zero_page() -> [u8; 0x4000] {
    vstd::array::spec_array_fill_for_copy_type::<u8, 0x4000>(0)
}

/// A zeroed 8 KiB half page.
pub open spec fn zero_half_page() -> [u8; 0x2000] {
    vstd::array::spec_array_fill_for_copy_type::<u8, 0x2000>(0)
}

impl SmsMemoryState {
    /// The ROM page count, as the 8 bit number the mapper works with.
    pub open spec fn rom_pages_u8(&self) -> u8 {
        ((self.rom@.len() / 0x4000) % 256) as u8
    }

    /// `page`, with a ROM page number taken modulo the number of ROM pages.
    pub open spec fn normalize(&self, page: MemoryPage) -> MemoryPage {
        match page {
            MemoryPage::Rom(x) => MemoryPage::Rom(page_mod(x, self.rom_pages_u8())),
            MemoryPage::RomButFirstKiB(x) => MemoryPage::RomButFirstKiB(
                page_mod(x, self.rom_pages_u8()),
            ),
            _ => page,
        }
    }

    /// The state with `slot` mapped to `page` (normalized).
    pub open spec fn spec_map_page(self, slot: u8, page: MemoryPage) -> Self {
        SmsMemoryState {
            pages: spec_array_update(self.pages, slot as int, self.normalize(page)),
            ..self
        }
    }

    /// The state after a write of `value` to the Sega mapper's registers.
    pub open spec fn spec_reg_sega(self, address: u16, value: u8) -> Self {
        let page = page_mod(value, self.rom_pages_u8());
        if address == 0xFFFD {
            self.spec_map_page(0, MemoryPage::RomButFirstKiB(page))
        } else if address == 0xFFFE {
            self.spec_map_page(1, MemoryPage::Rom(page))
        } else if address == 0xFFFF {
            match self.pages[2] {
                MemoryPage::FirstCartridgeRam(_) => self.spec_map_page(
                    2,
                    MemoryPage::FirstCartridgeRam(page),
                ),
                MemoryPage::SecondCartridgeRam(_) => self.spec_map_page(
                    2,
                    MemoryPage::SecondCartridgeRam(page),
                ),
                _ => self.spec_map_page(2, MemoryPage::Rom(page)),
            }
        } else if address == 0xFFFC {
            let ram_slot2 = value & 0x8 != 0;
            let cartridge_ram_slot3 = value & 0x10 != 0;
            let second_ram_page_slot2 = value & 0x4 != 0;
            let slot2_rom_page = match self.pages[2] {
                MemoryPage::Rom(x) => x,
                MemoryPage::FirstCartridgeRam(x) => x,
                MemoryPage::SecondCartridgeRam(x) => x,
                _ => 0,
            };
            let s1 = if !ram_slot2 {
                self.spec_map_page(2, MemoryPage::Rom(slot2_rom_page))
            } else if !second_ram_page_slot2 {
                self.spec_map_page(2, MemoryPage::FirstCartridgeRam(slot2_rom_page))
            } else {
                self.spec_map_page(2, MemoryPage::SecondCartridgeRam(slot2_rom_page))
            };
            if cartridge_ram_slot3 {
                s1.spec_map_page(3, MemoryPage::FirstCartridgeRam(0))
            } else {
                s1.spec_map_page(3, MemoryPage::SystemRam)
            }
        } else {
            self
        }
    }

    /// The state after a write of `value` to the Codemasters mapper's
    /// registers.
    pub open spec fn spec_reg_codemasters(self, address: u16, value: u8) -> Self {
        let page = page_mod(value, self.rom_pages_u8());
        if address == 0x0000 {
            self.spec_map_page(0, MemoryPage::Rom(page))
        } else if address == 0x4000 {
            self.spec_map_page(1, MemoryPage::Rom(page))
        } else if address == 0x8000 {
            self.spec_map_page(2, MemoryPage::Rom(page))
        } else {
            self
        }
    }

    /// The state after the mapper has seen a write of `value` at `address`.
    pub open spec fn spec_register_check(self, address: u16, value: u8) -> Self {
        match self.mapper {
            SmsMemoryMapper::Sega => self.spec_reg_sega(address, value),
            SmsMemoryMapper::Codemasters => self.spec_reg_codemasters(address, value),
            SmsMemoryMapper::Sg1000(_) => self,
        }
    }

    /// The 16 KiB page of main cartridge RAM numbered `which` (zero if not
    /// allocated).
    pub open spec fn main_page(&self, which: int) -> [u8; 0x4000] {
        match self.main_cartridge_ram {
            MainCartridgeRam::Zero => zero_page(),
            MainCartridgeRam::One(x) => if which == 0 {
                *x
            } else {
                zero_page()
            },
            MainCartridgeRam::Two(x, y) => if which == 0 {
                *x
            } else {
                *y
            },
        }
    }

    /// The half page of cartridge RAM (zero if not allocated).
    pub open spec fn half_page(&self) -> [u8; 0x2000] {
        match self.half_cartridge_ram {
            Some(x) => *x,
            None => zero_half_page(),
        }
    }

    /// The byte at `offset` of a slot mapped to `page`.
    pub open spec fn page_byte(&self, page: MemoryPage, offset: int) -> u8 {
        match page {
            MemoryPage::SystemRam => if self.system_ram_len == 0 {
                0
            } else {
                self.system_ram@[offset % (self.system_ram_len as int)]
            },
            MemoryPage::FirstCartridgeRam(_) => self.main_page(0)@[offset],
            MemoryPage::SecondCartridgeRam(_) => self.main_page(1)@[offset],
            MemoryPage::HalfCartridgeRam(x) => if offset < 0x2000 {
                rom_byte(self.rom@, offset + x as int * 0x4000)
            } else {
                self.half_page()@[offset - 0x2000]
            },
            MemoryPage::Rom(x) => rom_byte(self.rom@, offset + x as int * 0x4000),
            MemoryPage::RomButFirstKiB(x) => if offset < 0x400 {
                rom_byte(self.rom@, offset)
            } else {
                rom_byte(self.rom@, offset + x as int * 0x4000)
            },
        }
    }

    /// The main cartridge RAM with at least one page.
    pub open spec fn with_one_page(self) -> Self {
        match self.main_cartridge_ram {
            MainCartridgeRam::Zero => SmsMemoryState {
                main_cartridge_ram: MainCartridgeRam::One(Box::new(zero_page())),
                ..self
            },
            _ => self,
        }
    }

    /// The main cartridge RAM with two pages.
    pub open spec fn with_two_pages(self) -> Self {
        match self.main_cartridge_ram {
            MainCartridgeRam::Zero => SmsMemoryState {
                main_cartridge_ram: MainCartridgeRam::Two(
                    Box::new(zero_page()),
                    Box::new(zero_page()),
                ),
                ..self
            },
            MainCartridgeRam::One(x) => SmsMemoryState {
                main_cartridge_ram: MainCartridgeRam::Two(x, Box::new(zero_page())),
                ..self
            },
            _ => self,
        }
    }

    /// The half page of cartridge RAM allocated.
    pub open spec fn with_half_page(self) -> Self {
        match self.half_cartridge_ram {
            None => SmsMemoryState { half_cartridge_ram: Some(Box::new(zero_half_page())), ..self },
            _ => self,
        }
    }

    /// The state after storing `value` at `offset` of the slot mapped to
    /// `page` (writes to ROM are ignored).
    pub open spec fn store(self, page: MemoryPage, offset: int, value: u8) -> Self {
        match page {
            MemoryPage::SystemRam => if self.system_ram_len == 0 {
                self
            } else {
                SmsMemoryState {
                    system_ram: Box::new(
                        spec_array_update(
                            *self.system_ram,
                            offset % (self.system_ram_len as int),
                            value,
                        ),
                    ),
                    ..self
                }
            },
            MemoryPage::FirstCartridgeRam(_) => {
                let s = self.with_one_page();
                match s.main_cartridge_ram {
                    MainCartridgeRam::One(x) => SmsMemoryState {
                        main_cartridge_ram: MainCartridgeRam::One(
                            Box::new(spec_array_update(*x, offset, value)),
                        ),
                        ..s
                    },
                    MainCartridgeRam::Two(x, y) => SmsMemoryState {
                        main_cartridge_ram: MainCartridgeRam::Two(
                            Box::new(spec_array_update(*x, offset, value)),
                            y,
                        ),
                        ..s
                    },
                    MainCartridgeRam::Zero => s,
                }
            },
            MemoryPage::SecondCartridgeRam(_) => {
                let s = self.with_two_pages();
                match s.main_cartridge_ram {
                    MainCartridgeRam::Two(x, y) => SmsMemoryState {
                        main_cartridge_ram: MainCartridgeRam::Two(
                            x,
                            Box::new(spec_array_update(*y, offset, value)),
                        ),
                        ..s
                    },
                    _ => s,
                }
            },
            MemoryPage::HalfCartridgeRam(_) => if offset >= 0x2000 {
                let s = self.with_half_page();
                match s.half_cartridge_ram {
                    Some(x) => SmsMemoryState {
                        half_cartridge_ram: Some(
                            Box::new(spec_array_update(*x, offset - 0x2000, value)),
                        ),
                        ..s
                    },
                    None => s,
                }
            } else {
                self
            },
            _ => self,
        }
    }

    /// Is the state well formed: system RAM no longer than its buffer?
    pub open spec fn wf(&self) -> bool {
        self.system_ram_len <= SYSTEM_RAM_CAPACITY
    }
}

impl MainCartridgeRam {
    /// A copy of the RAM.
    pub fn copy(&self) -> (r: MainCartridgeRam)
        ensures
            r == *self,
    {
        match self {
            MainCartridgeRam::Zero => MainCartridgeRam::Zero,
            MainCartridgeRam::One(x) => MainCartridgeRam::One(Box::new(**x)),
            MainCartridgeRam::Two(x, y) => MainCartridgeRam::Two(Box::new(**x), Box::new(**y)),
        }
    }
}

impl SmsMemoryState {
    /// The number of ROM pages, as the mapper's 8 bit arithmetic sees it.
    fn rom_pages_u8_exec(&self) -> (r: u8)
        ensures
            r == self.rom_pages_u8(),
    {
        ((self.rom.len() / 0x4000) % 256) as u8
    }

    fn page_mod_exec(x: u8, n: u8) -> (r: u8)
        ensures
            r == page_mod(x, n),
    {
        if n == 0 {
            x
        } else {
            x % n
        }
    }

    /// Map `slot` to `page`. A ROM page is taken modulo the number of ROM
    /// pages.
    pub fn map_page(&mut self, slot: u8, page: MemoryPage)
        requires
            slot < 4,
        ensures
            *final(self) == old(self).spec_map_page(slot, page),
    {
        let rom_pages = self.rom_pages_u8_exec();
        let p = match page {
            MemoryPage::Rom(x) => MemoryPage::Rom(Self::page_mod_exec(x, rom_pages)),
            MemoryPage::RomButFirstKiB(x) => MemoryPage::RomButFirstKiB(
                Self::page_mod_exec(x, rom_pages),
            ),
            x => x,
        };
        self.map_page_impl(slot, p);
    }

    /// Map `slot` to `page` as given.
    pub fn map_page_impl(&mut self, slot: u8, page: MemoryPage)
        requires
            slot < 4,
        ensures
            *final(self) == (SmsMemoryState {
                pages: spec_array_update(old(self).pages, slot as int, page),
                ..*old(self)
            }),
    {
        self.pages[slot as usize] = page;
        assert(self.pages =~= spec_array_update(old(self).pages, slot as int, page));
    }

    /// What memory page is `slot` mapped to?
    pub fn page(&self, slot: u8) -> (r: MemoryPage)
        requires
            slot < 4,
        ensures
            r == self.pages[slot as int],
    {
        self.pages[slot as usize]
    }

    pub fn mapper(&self) -> (r: SmsMemoryMapper)
        ensures
            r == self.mapper,
    {
        self.mapper
    }

    pub fn set_mapper(&mut self, mapper: SmsMemoryMapper)
        ensures
            *final(self) == (SmsMemoryState { mapper, ..*old(self) }),
    {
        self.mapper = mapper;
    }

    /// How much ROM on the cartridge, in bytes.
    pub fn rom_len(&self) -> (r: usize)
        ensures
            r == self.rom@.len(),
    {
        self.rom.len()
    }

    /// Read a byte of ROM.
    pub fn rom_read(&self, index: usize) -> (r: u8)
        requires
            index < self.rom@.len(),
        ensures
            r == self.rom@[index as int],
    {
        self.rom[index]
    }

    /// Write a byte of ROM (which the hardware cannot do).
    pub fn rom_write(&mut self, index: usize, value: u8)
        requires
            index < old(self).rom@.len(),
        ensures
            final(self).rom@ == old(self).rom@.update(index as int, value),
            final(self).system_ram == old(self).system_ram,
            final(self).system_ram_len == old(self).system_ram_len,
            final(self).main_cartridge_ram == old(self).main_cartridge_ram,
            final(self).half_cartridge_ram == old(self).half_cartridge_ram,
            final(self).pages == old(self).pages,
            final(self).mapper == old(self).mapper,
    {
        self.rom.set(index, value);
    }

    /// The byte of ROM at `index`, or 0 past its end.
    fn rom_byte_exec(&self, index: usize) -> (r: u8)
        ensures
            r == rom_byte(self.rom@, index as int),
    {
        if index < self.rom.len() {
            self.rom[index]
        } else {
            0
        }
    }

    /// How much main cartridge RAM, in bytes: 0, 0x4000 or 0x8000.
    pub fn main_cartridge_ram_len(&self) -> (r: usize)
        ensures
            r == match self.main_cartridge_ram {
                MainCartridgeRam::Zero => 0usize,
                MainCartridgeRam::One(_) => 0x4000usize,
                MainCartridgeRam::Two(_, _) => 0x8000usize,
            },
    {
        match &self.main_cartridge_ram {
            MainCartridgeRam::Zero => 0,
            MainCartridgeRam::One(_) => 0x4000,
            MainCartridgeRam::Two(_, _) => 0x8000,
        }
    }

    /// Read a byte of main cartridge RAM.
    pub fn main_cartridge_ram_read(&self, index: usize) -> (r: u8)
        requires
            index < match self.main_cartridge_ram {
                MainCartridgeRam::Zero => 0usize,
                MainCartridgeRam::One(_) => 0x4000usize,
                MainCartridgeRam::Two(_, _) => 0x8000usize,
            },
        ensures
            r == if index < 0x4000 {
                self.main_page(0)@[index as int]
            } else {
                self.main_page(1)@[index - 0x4000]
            },
    {
        match &self.main_cartridge_ram {
            MainCartridgeRam::Zero => 0,
            MainCartridgeRam::One(x) => x[index],
            MainCartridgeRam::Two(x, y) => if index < 0x4000 {
                x[index]
            } else {
                y[index - 0x4000]
            },
        }
    }

    /// Write a byte of main cartridge RAM.
    pub fn main_cartridge_ram_write(&mut self, index: usize, value: u8)
        requires
            index < match old(self).main_cartridge_ram {
                MainCartridgeRam::Zero => 0usize,
                MainCartridgeRam::One(_) => 0x4000usize,
                MainCartridgeRam::Two(_, _) => 0x8000usize,
            },
        ensures
            *final(self) == if index < 0x4000 {
                old(self).store(MemoryPage::FirstCartridgeRam(0), index as int, value)
            } else {
                old(self).store(MemoryPage::SecondCartridgeRam(0), index - 0x4000, value)
            },
    {
        if index < 0x4000 {
            self.write_first_page(index, value);
        } else {
            self.write_second_page(index - 0x4000, value);
        }
    }

    /// Does the state have half page cartridge RAM: 0 or 0x2000 bytes?
    pub fn half_cartridge_ram_len(&self) -> (r: usize)
        ensures
            r == if self.half_cartridge_ram is Some {
                0x2000usize
            } else {
                0usize
            },
    {
        match &self.half_cartridge_ram {
            None => 0,
            Some(_) => 0x2000,
        }
    }

    pub fn half_cartridge_ram_read(&self, index: usize) -> (r: u8)
        requires
            self.half_cartridge_ram is Some,
            index < 0x2000,
        ensures
            r == self.half_page()@[index as int],
    {
        match &self.half_cartridge_ram {
            None => 0,
            Some(x) => x[index],
        }
    }

    pub fn half_cartridge_ram_write(&mut self, index: usize, value: u8)
        requires
            old(self).half_cartridge_ram is Some,
            index < 0x2000,
        ensures
            *final(self) == old(self).store(
                MemoryPage::HalfCartridgeRam(0),
                index + 0x2000,
                value,
            ),
    {
        self.write_half_page(index, value);
    }

    /// How much system RAM, in bytes.
    pub fn system_ram_len(&self) -> (r: usize)
        ensures
            r == self.system_ram_len,
    {
        self.system_ram_len
    }

    pub fn system_ram_read(&self, index: usize) -> (r: u8)
        requires
            index < self.system_ram_len,
            index < SYSTEM_RAM_CAPACITY,
        ensures
            r == self.system_ram@[index as int],
    {
        self.system_ram[index]
    }

    pub fn system_ram_write(&mut self, index: usize, value: u8)
        requires
            index < old(self).system_ram_len,
            index < SYSTEM_RAM_CAPACITY,
        ensures
            *final(self) == old(self).store(MemoryPage::SystemRam, index as int, value),
    {
        self.write_system_ram(index, value);
    }

    /// Set how many KiB of RAM the system has; the new RAM is zeroed.
    pub fn set_system_ram_kib(&mut self, kib: usize)
        requires
            kib * 0x400 <= usize::MAX,
        ensures
            *final(self) == (SmsMemoryState {
                system_ram: Box::new(zero_page()),
                system_ram_len: (kib * 0x400) as usize,
                ..*old(self)
            }),
    {
        self.system_ram = Box::new([0u8; 0x4000]);
        self.system_ram_len = kib * 0x400;
    }

    /// A copy of the whole state.
    pub fn state(&self) -> (r: SmsMemoryState)
        ensures
            r.rom@ == self.rom@,
            r.system_ram == self.system_ram,
            r.system_ram_len == self.system_ram_len,
            r.main_cartridge_ram == self.main_cartridge_ram,
            r.half_cartridge_ram == self.half_cartridge_ram,
            r.pages == self.pages,
            r.mapper == self.mapper,
    {
        SmsMemoryState {
            rom: self.rom.clone(),
            system_ram: Box::new(*self.system_ram),
            system_ram_len: self.system_ram_len,
            main_cartridge_ram: self.main_cartridge_ram.copy(),
            half_cartridge_ram: match &self.half_cartridge_ram {
                Some(x) => Some(Box::new(**x)),
                None => None,
            },
            pages: self.pages,
            mapper: self.mapper,
        }
    }

    fn write_system_ram(&mut self, index: usize, value: u8)
        requires
            index < old(self).system_ram_len,
            index < SYSTEM_RAM_CAPACITY,
        ensures
            *final(self) == old(self).store(MemoryPage::SystemRam, index as int, value),
    {
        let mut ram = *self.system_ram;
        ram[index] = value;
        self.system_ram = Box::new(ram);
        assert(ram =~= spec_array_update(*old(self).system_ram, index as int, value));
        proof {
            vstd::arithmetic::div_mod::lemma_small_mod(index as nat, old(self).system_ram_len as nat);
        }
    }

    fn ensure_one_page(&mut self)
        ensures
            *final(self) == old(self).with_one_page(),
    {
        if let MainCartridgeRam::Zero = self.main_cartridge_ram {
            self.main_cartridge_ram = MainCartridgeRam::One(Box::new([0u8; 0x4000]));
        }
    }

    fn ensure_two_pages(&mut self)
        ensures
            *final(self) == old(self).with_two_pages(),
    {
        let mut ram = MainCartridgeRam::Zero;
        std::mem::swap(&mut ram, &mut self.main_cartridge_ram);
        self.main_cartridge_ram = match ram {
            MainCartridgeRam::Zero => MainCartridgeRam::Two(
                Box::new([0u8; 0x4000]),
                Box::new([0u8; 0x4000]),
            ),
            MainCartridgeRam::One(x) => MainCartridgeRam::Two(x, Box::new([0u8; 0x4000])),
            MainCartridgeRam::Two(x, y) => MainCartridgeRam::Two(x, y),
        };
    }

    fn ensure_half_page(&mut self)
        ensures
            *final(self) == old(self).with_half_page(),
    {
        if self.half_cartridge_ram.is_none() {
            self.half_cartridge_ram = Some(Box::new([0u8; 0x2000]));
        }
    }

    fn write_first_page(&mut self, index: usize, value: u8)
        requires
            index < 0x4000,
        ensures
            *final(self) == old(self).store(MemoryPage::FirstCartridgeRam(0), index as int, value),
    {
        self.ensure_one_page();
        let mut ram = MainCartridgeRam::Zero;
        std::mem::swap(&mut ram, &mut self.main_cartridge_ram);
        self.main_cartridge_ram = match ram {
            MainCartridgeRam::One(x) => {
                let mut a = *x;
                a[index] = value;
                assert(a =~= spec_array_update(*x, index as int, value));
                MainCartridgeRam::One(Box::new(a))
            },
            MainCartridgeRam::Two(x, y) => {
                let mut a = *x;
                a[index] = value;
                assert(a =~= spec_array_update(*x, index as int, value));
                MainCartridgeRam::Two(Box::new(a), y)
            },
            MainCartridgeRam::Zero => MainCartridgeRam::Zero,
        };
    }

    fn write_second_page(&mut self, index: usize, value: u8)
        requires
            index < 0x4000,
        ensures
            *final(self) == old(self).store(MemoryPage::SecondCartridgeRam(0), index as int, value),
    {
        self.ensure_two_pages();
        let mut ram = MainCartridgeRam::Zero;
        std::mem::swap(&mut ram, &mut self.main_cartridge_ram);
        self.main_cartridge_ram = match ram {
            MainCartridgeRam::Two(x, y) => {
                let mut a = *y;
                a[index] = value;
                assert(a =~= spec_array_update(*y, index as int, value));
                MainCartridgeRam::Two(x, Box::new(a))
            },
            other => other,
        };
    }

    fn write_half_page(&mut self, index: usize, value: u8)
        requires
            index < 0x2000,
        ensures
            *final(self) == old(self).store(MemoryPage::HalfCartridgeRam(0), index + 0x2000, value),
    {
        self.ensure_half_page();
        let mut h = None;
        std::mem::swap(&mut h, &mut self.half_cartridge_ram);
        self.half_cartridge_ram = match h {
            Some(x) => {
                let mut a = *x;
                a[index] = value;
                assert(a =~= spec_array_update(*x, index as int, value));
                Some(Box::new(a))
            },
            None => None,
        };
    }
}

fn reg_sega(memory: &mut SmsMemoryState, address: u16, value: u8)
    ensures
        *final(memory) == old(memory).spec_reg_sega(address, value),
{
    let rom_pages = memory.rom_pages_u8_exec();
    let page = SmsMemoryState::page_mod_exec(value, rom_pages);
    if address == 0xFFFD {
        memory.map_page(0, MemoryPage::RomButFirstKiB(page));
    } else if address == 0xFFFE {
        memory.map_page(1, MemoryPage::Rom(page));
    } else if address == 0xFFFF {
        match memory.page(2) {
            MemoryPage::FirstCartridgeRam(_) => memory.map_page(
                2,
                MemoryPage::FirstCartridgeRam(page),
            ),
            MemoryPage::SecondCartridgeRam(_) => memory.map_page(
                2,
                MemoryPage::SecondCartridgeRam(page),
            ),
            _ => memory.map_page(2, MemoryPage::Rom(page)),
        }
    } else if address == 0xFFFC {
        let ram_slot2 = value & 0x8 != 0;
        let cartridge_ram_slot3 = value & 0x10 != 0;
        let second_ram_page_slot2 = value & 0x4 != 0;
        let slot2_rom_page = match memory.page(2) {
            MemoryPage::Rom(x) => x,
            MemoryPage::FirstCartridgeRam(x) => x,
            MemoryPage::SecondCartridgeRam(x) => x,
            _ => 0,
        };
        if !ram_slot2 {
            memory.map_page(2, MemoryPage::Rom(slot2_rom_page));
        } else if !second_ram_page_slot2 {
            memory.map_page(2, MemoryPage::FirstCartridgeRam(slot2_rom_page));
        } else {
            memory.map_page(2, MemoryPage::SecondCartridgeRam(slot2_rom_page));
        }
        if cartridge_ram_slot3 {
            memory.map_page(3, MemoryPage::FirstCartridgeRam(0));
        } else {
            memory.map_page(3, MemoryPage::SystemRam);
        }
    }
}

fn reg_codemasters(memory: &mut SmsMemoryState, address: u16, value: u8)
    ensures
        *final(memory) == old(memory).spec_reg_codemasters(address, value),
{
    let rom_pages = memory.rom_pages_u8_exec();
    let page = SmsMemoryState::page_mod_exec(value, rom_pages);
    if address == 0x0000 {
        memory.map_page(0, MemoryPage::Rom(page));
    } else if address == 0x4000 {
        memory.map_page(1, MemoryPage::Rom(page));
    } else if address == 0x8000 {
        memory.map_page(2, MemoryPage::Rom(page));
    }
}

/// Check if writing to a register and update slots/pages as necessary.
pub fn memory_register_check(memory: &mut SmsMemoryState, logical_address: u16, value: u8)
    ensures
        *final(memory) == old(memory).spec_register_check(logical_address, value),
{
    match memory.mapper() {
        SmsMemoryMapper::Sega => reg_sega(memory, logical_address, value),
        SmsMemoryMapper::Codemasters => reg_codemasters(memory, logical_address, value),
        SmsMemoryMapper::Sg1000(_) => {},
    }
}

impl Memory16 for SmsMemoryState {
    open spec fn spec_read(&self, logical_address: u16) -> u8 {
        self.page_byte(self.pages[logical_address as int / 0x4000], logical_address as int % 0x4000)
    }

    open spec fn spec_write(&self, logical_address: u16, value: u8) -> Self {
        let s = self.spec_register_check(logical_address, value);
        s.store(s.pages[logical_address as int / 0x4000], logical_address as int % 0x4000, value)
    }

    fn read(&mut self, logical_address: u16) -> (r: u8) {
        let slot = (logical_address / 0x4000) as usize;
        let address = (logical_address % 0x4000) as usize;
        match self.pages[slot] {
            MemoryPage::SystemRam => {
                let len = self.system_ram_len;
                if len == 0 {
                    0
                } else {
                    let i = address % len;
                    proof {
                        vstd::arithmetic::div_mod::lemma_mod_decreases(address as nat, len as nat);
                    }
                    if i < SYSTEM_RAM_CAPACITY {
                        self.system_ram[i]
                    } else {
                        0
                    }
                }
            },
            MemoryPage::FirstCartridgeRam(_) => match &self.main_cartridge_ram {
                MainCartridgeRam::One(x) => x[address],
                MainCartridgeRam::Two(x, _) => x[address],
                MainCartridgeRam::Zero => 0,
            },
            MemoryPage::SecondCartridgeRam(_) => match &self.main_cartridge_ram {
                MainCartridgeRam::Two(_, y) => y[address],
                _ => 0,
            },
            MemoryPage::HalfCartridgeRam(x) => {
                if address < 0x2000 {
                    self.rom_byte_exec(address + x as usize * 0x4000)
                } else {
                    match &self.half_cartridge_ram {
                        Some(h) => h[address - 0x2000],
                        None => 0,
                    }
                }
            },
            MemoryPage::Rom(x) => self.rom_byte_exec(address + x as usize * 0x4000),
            MemoryPage::RomButFirstKiB(x) => {
                if address < 0x400 {
                    self.rom_byte_exec(address)
                } else {
                    self.rom_byte_exec(address + x as usize * 0x4000)
                }
            },
        }
    }

    fn write(&mut self, logical_address: u16, value: u8) {
        memory_register_check(self, logical_address, value);
        let slot = (logical_address / 0x4000) as usize;
        let address = (logical_address % 0x4000) as usize;
        match self.pages[slot] {
            MemoryPage::SystemRam => {
                let len = self.system_ram_len;
                if len != 0 {
                    let i = address % len;
                    proof {
                        vstd::arithmetic::div_mod::lemma_mod_bound(address as int, len as int);
                        vstd::arithmetic::div_mod::lemma_mod_decreases(address as nat, len as nat);
                    }
                    self.write_system_ram_wrapped(i, address, value);
                }
            },
            MemoryPage::FirstCartridgeRam(_) => self.write_first_page(address, value),
            MemoryPage::SecondCartridgeRam(_) => self.write_second_page(address, value),
            MemoryPage::HalfCartridgeRam(_) => {
                if address >= 0x2000 {
                    self.write_half_page(address - 0x2000, value);
                }
            },
            _ => {},
        }
    }
}

impl SmsMemoryState {
    fn write_system_ram_wrapped(&mut self, i: usize, address: usize, value: u8)
        requires
            old(self).system_ram_len > 0,
            address < 0x4000,
            i == address % old(self).system_ram_len,
            i <= address,
        ensures
            *final(self) == old(self).store(MemoryPage::SystemRam, address as int, value),
    {
        let mut ram = *self.system_ram;
        ram[i] = value;
        self.system_ram = Box::new(ram);
        assert(ram =~= spec_array_update(*old(self).system_ram, i as int, value));
    }
}

/// Does `page` select a ROM page that a ROM of `pages` pages does not have?
pub open spec fn rom_page_invalid(page: MemoryPage, pages: int) -> bool {
    match page {
        MemoryPage::Rom(p) => p >= pages,
        MemoryPage::RomButFirstKiB(p) => p >= pages,
        _ => false,
    }
}

/// The ROM page a `Rom` or `RomButFirstKiB` page selects.
pub open spec fn selected_rom_page(page: MemoryPage) -> u8 {
    match page {
        MemoryPage::Rom(p) => p,
        MemoryPage::RomButFirstKiB(p) => p,
        _ => 0,
    }
}

/// The state with `kib` KiB of fresh system RAM.
pub open spec fn with_system_ram(s: SmsMemoryState, kib: usize) -> SmsMemoryState {
    SmsMemoryState {
        system_ram: Box::new(zero_page()),
        system_ram_len: (kib * 0x400) as usize,
        ..s
    }
}

/// The state after `default_mappings`: system RAM for the mapper, slots 0 to
/// 2 mapped to ROM pages 0, 1, 2 (0, 1, 0 for Codemasters), slot 3 to system
/// RAM.
pub open spec fn spec_default_mappings(s: SmsMemoryState) -> SmsMemoryState {
    let (kib, third) = match s.mapper {
        SmsMemoryMapper::Sega => (8usize, 2u8),
        SmsMemoryMapper::Codemasters => (8usize, 0u8),
        SmsMemoryMapper::Sg1000(x) => (if x < 1 { 1usize } else { x }, 2u8),
    };
    with_system_ram(s, kib).spec_map_page(0, MemoryPage::Rom(0)).spec_map_page(
        1,
        MemoryPage::Rom(1),
    ).spec_map_page(2, MemoryPage::Rom(third)).spec_map_page(3, MemoryPage::SystemRam)
}

/// Set up system RAM and the initial slot mappings for the memory's mapper.
pub fn default_mappings(memory: &mut SmsMemoryState)
    requires
        match old(memory).mapper {
            SmsMemoryMapper::Sg1000(x) => x * 0x400 <= usize::MAX,
            _ => true,
        },
    ensures
        *final(memory) == spec_default_mappings(*old(memory)),
{
    match memory.mapper() {
        SmsMemoryMapper::Sega => {
            memory.set_system_ram_kib(8);
            memory.map_page(0, MemoryPage::Rom(0));
            memory.map_page(1, MemoryPage::Rom(1));
            memory.map_page(2, MemoryPage::Rom(2));
            memory.map_page(3, MemoryPage::SystemRam);
        },
        SmsMemoryMapper::Codemasters => {
            memory.set_system_ram_kib(8);
            memory.map_page(0, MemoryPage::Rom(0));
            memory.map_page(1, MemoryPage::Rom(1));
            memory.map_page(2, MemoryPage::Rom(0));
            memory.map_page(3, MemoryPage::SystemRam);
        },
        SmsMemoryMapper::Sg1000(x) => {
            let kib = if x < 1 {
                1
            } else {
                x
            };
            memory.set_system_ram_kib(kib);
            memory.map_page(0, MemoryPage::Rom(0));
            memory.map_page(1, MemoryPage::Rom(1));
            memory.map_page(2, MemoryPage::Rom(2));
            memory.map_page(3, MemoryPage::SystemRam);
        },
    }
}

impl SmsMemoryState {
    /// Why the state cannot be loaded, if it cannot: a ROM size that is 0,
    /// not a multiple of 0x4000 or bigger than 0x400000, or else the first
    /// slot mapped to a ROM page that is not smaller than the number of ROM
    /// pages.
    pub open spec fn spec_check_valid(&self) -> Option<SmsMemoryLoadError> {
        let rom_len = self.rom@.len();
        let pages = rom_len as int / 0x4000;
        let found = pages as u8;
        if rom_len == 0 || rom_len % 0x4000 != 0 || rom_len > 0x400000 {
            Some(SmsMemoryLoadError::InvalidRomSize(rom_len as usize))
        } else if rom_page_invalid(self.pages[0], pages) {
            Some(
                SmsMemoryLoadError::InvalidRomPageSelected {
                    slot: 0,
                    selected: selected_rom_page(self.pages[0]),
                    found,
                },
            )
        } else if rom_page_invalid(self.pages[1], pages) {
            Some(
                SmsMemoryLoadError::InvalidRomPageSelected {
                    slot: 1,
                    selected: selected_rom_page(self.pages[1]),
                    found,
                },
            )
        } else if rom_page_invalid(self.pages[2], pages) {
            Some(
                SmsMemoryLoadError::InvalidRomPageSelected {
                    slot: 2,
                    selected: selected_rom_page(self.pages[2]),
                    found,
                },
            )
        } else if rom_page_invalid(self.pages[3], pages) {
            Some(
                SmsMemoryLoadError::InvalidRomPageSelected {
                    slot: 3,
                    selected: selected_rom_page(self.pages[3]),
                    found,
                },
            )
        } else {
            None
        }
    }

    /// Are the ROM size and the mapped ROM pages in this state valid? Each
    /// selected page must be smaller than the number of pages in the ROM.
    pub fn check_valid(&self) -> (r: Option<SmsMemoryLoadError>)
        ensures
            r == self.spec_check_valid(),
    {
        let rom_len = self.rom.len();
        if rom_len == 0 || rom_len % 0x4000 != 0 || rom_len > 0x400000 {
            return Some(SmsMemoryLoadError::InvalidRomSize(rom_len));
        }
        let pages: usize = rom_len / 0x4000;
        let found = pages as u8;
        let mut slot: usize = 0;
        while slot < 4
            invariant
                slot <= 4,
                rom_len == self.rom@.len(),
                pages == rom_len / 0x4000,
                found == pages as u8,
                !(rom_len == 0 || rom_len % 0x4000 != 0 || rom_len > 0x400000),
                forall|i: int| 0 <= i < slot ==> !rom_page_invalid(#[trigger] self.pages[i], pages as int),
            decreases 4 - slot,
        {
            let page = self.pages[slot];
            let (bad, p) = match page {
                MemoryPage::Rom(p) => (p as usize >= pages, p),
                MemoryPage::RomButFirstKiB(p) => (p as usize >= pages, p),
                _ => (false, 0),
            };
            if bad {
                return Some(
                    SmsMemoryLoadError::InvalidRomPageSelected {
                        slot: slot as u8,
                        selected: p,
                        found,
                    },
                );
            }
            slot = slot + 1;
        }
        None
    }

    /// Load a state: it is taken as it is if `check_valid` finds nothing
    /// wrong with it.
    pub fn load(state: SmsMemoryState) -> (r: Result<SmsMemoryState, SmsMemoryLoadError>)
        ensures
            match state.spec_check_valid() {
                Some(e) => r == Err::<SmsMemoryState, SmsMemoryLoadError>(e),
                None => r == Ok::<SmsMemoryState, SmsMemoryLoadError>(state),
            },
    {
        match state.check_valid() {
            Some(e) => Err(e),
            None => Ok(state),
        }
    }

    /// The memory of a one page ROM, with no RAM, every slot mapped to ROM
    /// page 0 and the Sega mapper.
    pub fn from_rom(rom: Box<[u8; 0x4000]>) -> (r: Result<SmsMemoryState, SmsMemoryLoadError>)
        ensures
            r is Ok,
            r->Ok_0.rom@ == rom@,
            r->Ok_0.system_ram_len == 0,
            r->Ok_0.main_cartridge_ram == MainCartridgeRam::Zero,
            r->Ok_0.half_cartridge_ram is None,
            forall|i: int| 0 <= i < 4 ==> r->Ok_0.pages[i] == MemoryPage::Rom(0),
            r->Ok_0.mapper == SmsMemoryMapper::Sega,
    {
        let mut v: Vec<u8> = Vec::new();
        let mut i: usize = 0;
        while i < 0x4000
            invariant
                i <= 0x4000,
                v@ == rom@.subrange(0, i as int),
            decreases 0x4000 - i,
        {
            v.push(rom[i]);
            i = i + 1;
        }
        assert(v@ == rom@);
        let state = SmsMemoryState {
            rom: v,
            system_ram: Box::new([0u8; 0x4000]),
            system_ram_len: 0,
            main_cartridge_ram: MainCartridgeRam::Zero,
            half_cartridge_ram: None,
            pages: [MemoryPage::Rom(0), MemoryPage::Rom(0), MemoryPage::Rom(0), MemoryPage::Rom(0)],
            mapper: SmsMemoryMapper::Sega,
        };
        Self::load(state)
    }
}

/// System RAM keeps what is written: a read of an address in a slot mapped
/// to system RAM gives back the byte last written there. (A write of a value
/// with bit 4 set to 0xFFFC under the Sega mapper maps cartridge RAM into
/// the last slot instead.)
pub proof fn lemma_ram_read_after_write(s: SmsMemoryState, a: u16, v: u8)
    requires
        s.wf(),
        s.system_ram_len > 0,
        a >= 0xC000,
        s.pages[3] == MemoryPage::SystemRam,
        !(s.mapper == SmsMemoryMapper::Sega && a == 0xFFFC && v & 0x10 != 0),
    ensures
        s.spec_write(a, v).spec_read(a) == v,
{
    let s1 = s.spec_register_check(a, v);
    assert(s1.pages[3] == MemoryPage::SystemRam);
    assert(s1.system_ram_len == s.system_ram_len);
    vstd::arithmetic::div_mod::lemma_mod_bound(a as int % 0x4000, s.system_ram_len as int);
}

/// `page` with a ROM page number taken modulo `n` pages (as the mapper
/// does, where `n` is the number of ROM pages as an 8 bit number).
pub open spec fn normalize_page(page: MemoryPage, n: u8) -> MemoryPage {
    match page {
        MemoryPage::Rom(x) => MemoryPage::Rom(page_mod(x, n)),
        MemoryPage::RomButFirstKiB(x) => MemoryPage::RomButFirstKiB(page_mod(x, n)),
        _ => page,
    }
}

/// The slots' pages after the mapper sees a write of `value` at `address`,
/// for a ROM of `n` pages: what `spec_register_check` does to the pages of
/// any memory.
pub open spec fn spec_register_pages(
    mapper: SmsMemoryMapper,
    n: u8,
    pages: [MemoryPage; 4],
    address: u16,
    value: u8,
) -> [MemoryPage; 4] {
    let set = |p: [MemoryPage; 4], slot: int, page: MemoryPage|
        spec_array_update(p, slot, normalize_page(page, n));
    let page = page_mod(value, n);
    match mapper {
        SmsMemoryMapper::Sega => if address == 0xFFFD {
            set(pages, 0, MemoryPage::RomButFirstKiB(page))
        } else if address == 0xFFFE {
            set(pages, 1, MemoryPage::Rom(page))
        } else if address == 0xFFFF {
            match pages[2] {
                MemoryPage::FirstCartridgeRam(_) => set(pages, 2, MemoryPage::FirstCartridgeRam(page)),
                MemoryPage::SecondCartridgeRam(_) => set(pages, 2, MemoryPage::SecondCartridgeRam(page)),
                _ => set(pages, 2, MemoryPage::Rom(page)),
            }
        } else if address == 0xFFFC {
            let slot2_rom_page = match pages[2] {
                MemoryPage::Rom(x) => x,
                MemoryPage::FirstCartridgeRam(x) => x,
                MemoryPage::SecondCartridgeRam(x) => x,
                _ => 0,
            };
            let p1 = if value & 0x8 == 0 {
                set(pages, 2, MemoryPage::Rom(slot2_rom_page))
            } else if value & 0x4 == 0 {
                set(pages, 2, MemoryPage::FirstCartridgeRam(slot2_rom_page))
            } else {
                set(pages, 2, MemoryPage::SecondCartridgeRam(slot2_rom_page))
            };
            if value & 0x10 != 0 {
                set(p1, 3, MemoryPage::FirstCartridgeRam(0))
            } else {
                set(p1, 3, MemoryPage::SystemRam)
            }
        } else {
            pages
        },
        SmsMemoryMapper::Codemasters => if address == 0x0000 {
            set(pages, 0, MemoryPage::Rom(page))
        } else if address == 0x4000 {
            set(pages, 1, MemoryPage::Rom(page))
        } else if address == 0x8000 {
            set(pages, 2, MemoryPage::Rom(page))
        } else {
            pages
        },
        SmsMemoryMapper::Sg1000(_) => pages,
    }
}

/// The mapper changes nothing but the pages, as `spec_register_pages`
/// has them.
pub proof fn lemma_register_pages(s: SmsMemoryState, address: u16, value: u8)
    ensures
        s.spec_register_check(address, value) == (SmsMemoryState {
            pages: spec_register_pages(s.mapper, s.rom_pages_u8(), s.pages, address, value),
            ..s
        }),
{
}

/// How many bytes of main cartridge RAM a state has.
pub open spec fn main_ram_len(s: SmsMemoryState) -> int {
    match s.main_cartridge_ram {
        MainCartridgeRam::Zero => 0,
        MainCartridgeRam::One(_) => 0x4000,
        MainCartridgeRam::Two(_, _) => 0x8000,
    }
}

/// Cartridge RAM, once there, stays: a write may allocate more main or
/// half page cartridge RAM but never takes any away, and leaves the ROM as
/// it is.
pub proof fn lemma_cartridge_ram_grows(s: SmsMemoryState, address: u16, value: u8)
    ensures
        main_ram_len(s.spec_write(address, value)) >= main_ram_len(s),
        s.half_cartridge_ram is Some ==> s.spec_write(address, value).half_cartridge_ram is Some,
        s.spec_write(address, value).rom == s.rom,
{
    lemma_register_pages(s, address, value);
}

} // verus!
