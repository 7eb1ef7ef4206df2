//! The memory of the Master System through virtual memory: each of the
//! four slots of the logical address space is mapped onto physical memories
//! for ROM, system RAM and cartridge RAM, so that reads and writes go
//! straight to the right byte. Writes to ROM land in a scrap page that is
//! never read.
use vstd::prelude::*;
use vstd::array::spec_array_update;
use super::{lemma_physical_frames, Frame, LogicalMemory, Main, PhysicalMemory, UnsafeMemory};
use crate::hardware::memory16::Memory16;
use crate::hardware::sms_memory::{
    normalize_page, page_mod, spec_register_pages, MemoryPage, SmsMemoryLoadError,
    SmsMemoryMapper, SmsMemoryState,
};

verus! {

/// The cartridge's ROM.
pub struct Rom(PhysicalMemory<u8>);

/// On-cartridge RAM for the Sega mapper: none, one page or two.
pub enum MainCartridgeRam {
    Zero,
    One(PhysicalMemory<u8>),
    Two(PhysicalMemory<u8>, PhysicalMemory<u8>),
}

/// Which memory a byte of the arena belongs to.
enum Owner {
    Rom,
    SystemRam,
    Scrap,
    MainRam(u8),
    HalfRam,
    RomCopy(u8),
    Other,
}

/// The Master System's memory, mapped onto physical memories.
pub struct SmsVirtualMemory {
    vm: Main<u8>,
    /// For each byte of `vm`, the memory it belongs to.
    owners: Ghost<Seq<Owner>>,
    rom: Rom,
    system_ram: PhysicalMemory<u8>,
    main_cartridge_ram: MainCartridgeRam,
    half_cartridge_ram: Option<PhysicalMemory<u8>>,
    /// Half a page of memory, written to but never read.
    scrap: PhysicalMemory<u8>,
    /// For each slot that has been mapped to `RomButFirstKiB`, the page it
    /// shows: the first KiB copied from the start of ROM, the rest from its
    /// page.
    rom_but_1: Vec<Option<PhysicalMemory<u8>>>,
    pages: [MemoryPage; 4],
    mapper: SmsMemoryMapper,
    write_mem: LogicalMemory<u8>,
    read_mem: LogicalMemory<u8>,
}

/// `n` zero bytes.
pub open spec fn zeros(n: nat) -> Seq<u8> {
    Seq::new(n, |i: int| 0u8)
}

/// The page a slot mapped to `RomButFirstKiB(p)` shows of `rom`.
pub open spec fn rom_copy(rom: Seq<u8>, p: int) -> Seq<u8> {
    rom.subrange(0, 0x400) + rom.subrange(p * 0x4000 + 0x400, (p + 1) * 0x4000)
}

impl SmsVirtualMemory {
    pub closed spec fn spec_pages(&self) -> [MemoryPage; 4] {
        self.pages
    }

    pub closed spec fn spec_mapper(&self) -> SmsMemoryMapper {
        self.mapper
    }

    pub closed spec fn spec_rom(&self) -> Seq<u8> {
        self.vm.contents(&self.rom.0)
    }

    pub closed spec fn spec_system_ram(&self) -> Seq<u8> {
        self.vm.contents(&self.system_ram)
    }

    /// Page `which` (0 or 1) of main cartridge RAM; zeros while it is not
    /// allocated.
    pub closed spec fn spec_main_ram(&self, which: int) -> Seq<u8> {
        match self.main_cartridge_ram {
            MainCartridgeRam::Zero => zeros(0x4000),
            MainCartridgeRam::One(x) => if which == 0 {
                self.vm.contents(&x)
            } else {
                zeros(0x4000)
            },
            MainCartridgeRam::Two(x, y) => if which == 0 {
                self.vm.contents(&x)
            } else {
                self.vm.contents(&y)
            },
        }
    }

    /// The half page of cartridge RAM; zeros while it is not allocated.
    pub closed spec fn spec_half_ram(&self) -> Seq<u8> {
        match self.half_cartridge_ram {
            Some(x) => self.vm.contents(&x),
            None => zeros(0x2000),
        }
    }

    /// How many bytes of main cartridge RAM are allocated.
    pub closed spec fn spec_main_ram_len(&self) -> nat {
        match self.main_cartridge_ram {
            MainCartridgeRam::Zero => 0,
            MainCartridgeRam::One(_) => 0x4000,
            MainCartridgeRam::Two(_, _) => 0x8000,
        }
    }

    /// Is the half page of cartridge RAM allocated?
    pub closed spec fn spec_has_half_ram(&self) -> bool {
        self.half_cartridge_ram is Some
    }

    /// The ROM page count, as the 8 bit number the mapper works with.
    pub open spec fn rom_pages_u8(&self) -> u8 {
        ((self.spec_rom().len() / 0x4000) % 256) as u8
    }

    /// The byte at `offset` of a slot mapped to `page`.
    pub open spec fn page_byte(&self, page: MemoryPage, offset: int) -> u8 {
        let rom = self.spec_rom();
        match page {
            MemoryPage::SystemRam => self.spec_system_ram()[offset % (
            self.spec_system_ram().len() as int)],
            MemoryPage::FirstCartridgeRam(_) => self.spec_main_ram(0)[offset],
            MemoryPage::SecondCartridgeRam(_) => self.spec_main_ram(1)[offset],
            MemoryPage::HalfCartridgeRam(p) => if offset < 0x2000 {
                rom[p * 0x4000 + offset]
            } else {
                self.spec_half_ram()[offset - 0x2000]
            },
            MemoryPage::Rom(p) => rom[p * 0x4000 + offset],
            MemoryPage::RomButFirstKiB(p) => if offset < 0x400 {
                rom[offset]
            } else {
                rom[p * 0x4000 + offset]
            },
        }
    }

    /// The byte a read of `address` gives.
    pub open spec fn spec_read(&self, address: u16) -> u8 {
        self.page_byte(self.spec_pages()[address as int / 0x4000], address as int % 0x4000)
    }

    /// Does every memory but the pages and the mapper hold the same bytes
    /// as in `old`?
    pub open spec fn same_contents(&self, old: &SmsVirtualMemory) -> bool {
        &&& self.spec_rom() == old.spec_rom()
        &&& self.spec_system_ram() == old.spec_system_ram()
        &&& self.spec_main_ram(0) == old.spec_main_ram(0)
        &&& self.spec_main_ram(1) == old.spec_main_ram(1)
        &&& self.spec_half_ram() == old.spec_half_ram()
    }

    /// Does this memory hold what `old` held, but for `value` stored at
    /// `address` through the page this memory maps there (a store to ROM
    /// changes nothing)?
    pub open spec fn stored_from(&self, old: &SmsVirtualMemory, address: u16, value: u8) -> bool {
        let page = self.spec_pages()[address as int / 0x4000];
        let o = address as int % 0x4000;
        let sys = old.spec_system_ram();
        &&& self.spec_rom() == old.spec_rom()
        &&& self.spec_system_ram() == if page is SystemRam {
            sys.update(o % (sys.len() as int), value)
        } else {
            sys
        }
        &&& self.spec_main_ram(0) == if page is FirstCartridgeRam {
            old.spec_main_ram(0).update(o, value)
        } else {
            old.spec_main_ram(0)
        }
        &&& self.spec_main_ram(1) == if page is SecondCartridgeRam {
            old.spec_main_ram(1).update(o, value)
        } else {
            old.spec_main_ram(1)
        }
        &&& self.spec_half_ram() == if page is HalfCartridgeRam && o >= 0x2000 {
            old.spec_half_ram().update(o - 0x2000, value)
        } else {
            old.spec_half_ram()
        }
    }

    /// Can `page` be shown from a ROM of `rom_len` bytes?
    pub open spec fn page_fits(page: MemoryPage, rom_len: int) -> bool {
        match page {
            MemoryPage::HalfCartridgeRam(p) => p * 0x4000 + 0x2000 <= rom_len,
            MemoryPage::Rom(p) => (p + 1) * 0x4000 <= rom_len,
            MemoryPage::RomButFirstKiB(p) => (p + 1) * 0x4000 <= rom_len,
            _ => true,
        }
    }

    /// Is every byte of `m` owned by `o`?
    closed spec fn owned(&self, m: PhysicalMemory<u8>, o: Owner) -> bool {
        forall|i: int| 0 <= i < m.spec_len() ==> #[trigger] self.owners@[m.spec_start() + i] == o
    }

    /// Where in the physical memories a read of `offset` of `slot` goes.
    closed spec fn read_pos(&self, slot: int, offset: int) -> int {
        match self.pages[slot] {
            MemoryPage::SystemRam => self.system_ram.spec_start() + offset
                % (self.system_ram.spec_len() as int),
            MemoryPage::FirstCartridgeRam(_) => match self.main_cartridge_ram {
                MainCartridgeRam::One(x) => x.spec_start() + offset,
                MainCartridgeRam::Two(x, _) => x.spec_start() + offset,
                MainCartridgeRam::Zero => 0,
            },
            MemoryPage::SecondCartridgeRam(_) => match self.main_cartridge_ram {
                MainCartridgeRam::Two(_, y) => y.spec_start() + offset,
                _ => 0,
            },
            MemoryPage::HalfCartridgeRam(p) => if offset < 0x2000 {
                self.rom.0.spec_start() + p * 0x4000 + offset
            } else {
                match self.half_cartridge_ram {
                    Some(x) => x.spec_start() + offset - 0x2000,
                    None => 0,
                }
            },
            MemoryPage::Rom(p) => self.rom.0.spec_start() + p * 0x4000 + offset,
            MemoryPage::RomButFirstKiB(_) => match self.rom_but_1@[slot] {
                Some(x) => x.spec_start() + offset,
                None => 0,
            },
        }
    }

    /// Where in the physical memories a write of `offset` of `slot` goes.
    closed spec fn write_pos(&self, slot: int, offset: int) -> int {
        match self.pages[slot] {
            MemoryPage::HalfCartridgeRam(_) => if offset < 0x2000 {
                self.scrap.spec_start() + offset
            } else {
                self.read_pos(slot, offset)
            },
            MemoryPage::Rom(_) => self.scrap.spec_start() + offset % 0x2000,
            MemoryPage::RomButFirstKiB(_) => self.scrap.spec_start() + offset % 0x2000,
            _ => self.read_pos(slot, offset),
        }
    }

    /// Can `slot` show its page: is the memory for it there, does the ROM
    /// have the page, and does a copied page hold what it shows?
    closed spec fn slot_ok(&self, slot: int) -> bool {
        let rom_len = self.rom.0.spec_len() as int;
        match self.pages[slot] {
            MemoryPage::SystemRam => true,
            MemoryPage::FirstCartridgeRam(_) => !(self.main_cartridge_ram is Zero),
            MemoryPage::SecondCartridgeRam(_) => self.main_cartridge_ram is Two,
            MemoryPage::HalfCartridgeRam(p) => self.half_cartridge_ram is Some && p * 0x4000
                + 0x2000 <= rom_len,
            MemoryPage::Rom(p) => (p + 1) * 0x4000 <= rom_len,
            MemoryPage::RomButFirstKiB(p) => (p + 1) * 0x4000 <= rom_len && match self.rom_but_1@[slot] {
                Some(x) => self.vm.contents(&x) == rom_copy(self.spec_rom(), p as int),
                None => false,
            },
        }
    }

    /// Are the frames of `slot` where its page puts them?
    closed spec fn slot_mapped(&self, slot: int) -> bool {
        forall|o: int|
            0 <= o < 0x4000 ==> {
                &&& #[trigger] self.read_mem.spec_frame(slot * 0x4000 + o).position == self.read_pos(
                    slot,
                    o,
                )
                &&& self.write_mem.spec_frame(slot * 0x4000 + o).position == self.write_pos(slot, o)
                &&& self.write_mem.spec_frame(slot * 0x4000 + o).write
            }
    }

    /// How much the arena may still grow by as memories are allocated.
    closed spec fn room_needed(&self) -> int {
        let main = match self.main_cartridge_ram {
            MainCartridgeRam::Zero => 0x8000int,
            MainCartridgeRam::One(_) => 0x4000int,
            MainCartridgeRam::Two(_, _) => 0int,
        };
        let half = if self.half_cartridge_ram is Some {
            0int
        } else {
            0x2000int
        };
        let copy = |s: int| if self.rom_but_1@[s] is Some {
            0int
        } else {
            0x4000int
        };
        main + half + copy(0) + copy(1) + copy(2) + copy(3)
    }

    /// A physical memory of `len` bytes, in the arena, in range and owned
    /// by `o`.
    closed spec fn memory_ok(&self, m: PhysicalMemory<u8>, len: int, o: Owner) -> bool {
        &&& m.spec_len() == len
        &&& self.vm.holds(&m)
        &&& m.in_range()
        &&& self.owned(m, o)
    }

    /// The memories are there, leaving aside whether the frames lie within
    /// them.
    closed spec fn memories_ok_but_frames(&self) -> bool {
        let rom_len = self.rom.0.spec_len() as int;
        &&& self.owners@.len() == self.vm@.len()
        &&& self.vm@.len() + self.room_needed() <= usize::MAX
        &&& self.memory_ok(self.rom.0, rom_len, Owner::Rom)
        &&& rom_len % 0x4000 == 0
        &&& 0 < rom_len <= 0x400000
        &&& (self.system_ram.spec_len() == 0x1000 || self.system_ram.spec_len() == 0x2000
            || self.system_ram.spec_len() == 0x4000)
        &&& self.memory_ok(self.system_ram, self.system_ram.spec_len() as int, Owner::SystemRam)
        &&& self.system_ram.spec_write()
        &&& self.memory_ok(self.scrap, 0x2000, Owner::Scrap)
        &&& self.scrap.spec_write()
        &&& self.read_mem.spec_len() == 0x10000
        &&& self.write_mem.spec_len() == 0x10000
        &&& match self.main_cartridge_ram {
            MainCartridgeRam::Zero => true,
            MainCartridgeRam::One(x) => self.memory_ok(x, 0x4000, Owner::MainRam(0))
                && x.spec_write(),
            MainCartridgeRam::Two(x, y) => self.memory_ok(x, 0x4000, Owner::MainRam(0))
                && x.spec_write() && self.memory_ok(y, 0x4000, Owner::MainRam(1))
                && y.spec_write(),
        }
        &&& match self.half_cartridge_ram {
            None => true,
            Some(x) => self.memory_ok(x, 0x2000, Owner::HalfRam) && x.spec_write(),
        }
        &&& self.rom_but_1@.len() == 4
        &&& forall|s: int|
            0 <= s < 4 ==> match #[trigger] self.rom_but_1@[s] {
                Some(x) => self.memory_ok(x, 0x4000, Owner::RomCopy(s as u8)) && x.spec_write(),
                None => true,
            }
    }

    /// The memories are all there, with the sizes they must have, and the
    /// frames lie within them.
    closed spec fn memories_ok(&self) -> bool {
        &&& self.memories_ok_but_frames()
        &&& self.vm.holds(&self.read_mem)
        &&& self.vm.holds(&self.write_mem)
    }

    /// Is the memory well formed: its memories are there, and each slot is
    /// mapped as its page says?
    pub closed spec fn wf(&self) -> bool {
        &&& self.memories_ok()
        &&& forall|s: int| 0 <= s < 4 ==> #[trigger] self.slot_ok(s) && self.slot_mapped(s)
    }

    /// How many bytes of physical memory there are; memories are never
    /// given back.
    pub closed spec fn spec_arena_len(&self) -> nat {
        self.vm@.len()
    }

    pub fn arena_len(&self) -> (r: usize)
        ensures
            r == self.spec_arena_len(),
    {
        self.vm.len()
    }
}

/// Map `len` bytes of `read_mem` and `write_mem` from `logical_offset` on
/// to `physical` from its start.
fn map_both(
    read_mem: &mut LogicalMemory<u8>,
    write_mem: &mut LogicalMemory<u8>,
    physical: &PhysicalMemory<u8>,
    logical_offset: usize,
    len: usize,
)
    requires
        old(read_mem).spec_len() == 0x10000,
        old(write_mem).spec_len() == 0x10000,
        logical_offset + len <= 0x10000,
        len <= physical.spec_len(),
        len > 0,
        logical_offset % 0x1000 == 0,
        len % 0x1000 == 0,
        physical.spec_write(),
    ensures
        final(read_mem).spec_len() == 0x10000,
        final(write_mem).spec_len() == 0x10000,
        forall|i: int|
            0 <= i < 0x10000 ==> #[trigger] final(read_mem).spec_frame(i) == if logical_offset <= i
                < logical_offset + len {
                Frame {
                    position: (physical.spec_start() + (i - logical_offset)) as usize,
                    write: false,
                    source_write: true,
                }
            } else {
                old(read_mem).spec_frame(i)
            },
        forall|i: int|
            0 <= i < 0x10000 ==> #[trigger] final(write_mem).spec_frame(i) == if logical_offset
                <= i < logical_offset + len {
                Frame {
                    position: (physical.spec_start() + (i - logical_offset)) as usize,
                    write: true,
                    source_write: true,
                }
            } else {
                old(write_mem).spec_frame(i)
            },
{
    broadcast use vstd::layout::layout_of_primitives;
    Main::map(read_mem, logical_offset, physical, 0, len, false, false);
    Main::map(write_mem, logical_offset, physical, 0, len, true, false);
}

/// Map `len` bytes of `logical` from `logical_offset` on to `physical` from
/// `physical_offset` on, for reading only.
fn map_read(
    logical: &mut LogicalMemory<u8>,
    logical_offset: usize,
    physical: &PhysicalMemory<u8>,
    physical_offset: usize,
    len: usize,
)
    requires
        old(logical).spec_len() == 0x10000,
        logical_offset + len <= 0x10000,
        physical_offset + len <= physical.spec_len(),
        len > 0,
        logical_offset % 0x1000 == 0,
        physical_offset % 0x1000 == 0,
        len % 0x1000 == 0,
    ensures
        final(logical).spec_len() == 0x10000,
        forall|i: int|
            0 <= i < 0x10000 ==> #[trigger] final(logical).spec_frame(i) == if logical_offset <= i
                < logical_offset + len {
                Frame {
                    position: (physical.spec_start() + physical_offset + (i - logical_offset)) as usize,
                    write: false,
                    source_write: physical.spec_write(),
                }
            } else {
                old(logical).spec_frame(i)
            },
{
    broadcast use vstd::layout::layout_of_primitives;
    Main::map(logical, logical_offset, physical, physical_offset, len, false, false);
}

/// Map the write frames of a 16 KiB slot from `offset` on to the scrap half
/// page, twice.
fn map_scrap(write_mem: &mut LogicalMemory<u8>, scrap: &PhysicalMemory<u8>, offset: usize)
    requires
        old(write_mem).spec_len() == 0x10000,
        offset + 0x4000 <= 0x10000,
        offset % 0x4000 == 0,
        scrap.spec_len() == 0x2000,
        scrap.spec_write(),
    ensures
        final(write_mem).spec_len() == 0x10000,
        forall|i: int|
            0 <= i < 0x10000 ==> #[trigger] final(write_mem).spec_frame(i) == if offset <= i < offset
                + 0x4000 {
                Frame {
                    position: (scrap.spec_start() + (i - offset) % 0x2000) as usize,
                    write: true,
                    source_write: true,
                }
            } else {
                old(write_mem).spec_frame(i)
            },
{
    broadcast use vstd::layout::layout_of_primitives;
    Main::map(write_mem, offset, scrap, 0, 0x2000, true, false);
    Main::map(write_mem, offset + 0x2000, scrap, 0, 0x2000, true, false);
}

impl SmsVirtualMemory {
    /// Has the arena only grown, with every byte not owned by `tag` kept?
    closed spec fn vm_kept_except(&self, old: &SmsVirtualMemory, tag: Owner) -> bool {
        &&& old.vm@.len() <= self.vm@.len()
        &&& old.owners@.len() <= self.owners@.len()
        &&& forall|k: int| 0 <= k < old.owners@.len() ==> #[trigger] self.owners@[k] == old.owners@[k]
        &&& forall|k: int|
            0 <= k < old.vm@.len() && old.owners@[k] != tag ==> #[trigger] self.vm@[k] == old.vm@[k]
    }

    /// A memory not owned by `tag` keeps its bytes and stays in order.
    proof fn lemma_memory_kept(
        &self,
        old: &SmsVirtualMemory,
        tag: Owner,
        m: PhysicalMemory<u8>,
        len: int,
        o: Owner,
    )
        requires
            old.memory_ok(m, len, o),
            old.owners@.len() == old.vm@.len(),
            o != tag,
            self.vm_kept_except(old, tag),
        ensures
            self.memory_ok(m, len, o),
            self.vm.contents(&m) == old.vm.contents(&m),
    {
        lemma_physical_frames(&old.vm, &m);
        assert forall|i: int| 0 <= i < m.spec_len() implies #[trigger] self.owners@[m.spec_start()
            + i] == o by {
            assert(old.owners@[m.spec_start() + i] == o);
        }
        assert forall|i: int| 0 <= i < m.spec_len() implies #[trigger] m.spec_frame(i).position
            < self.vm@.len() by {
            assert(old.vm.holds(&m));
        }
        lemma_physical_frames(&self.vm, &m);
        assert forall|i: int| 0 <= i < m.spec_len() implies #[trigger] self.vm.contents(&m)[i]
            == old.vm.contents(&m)[i] by {
            assert(old.owners@[m.spec_start() + i] == o);
            assert(self.vm@[m.spec_start() + i] == old.vm@[m.spec_start() + i]);
        }
        assert(self.vm.contents(&m) =~= old.vm.contents(&m));
    }

    /// Do the slots other than `slot`, and the memories, stay as in `old`,
    /// with only the bytes of the copied page of `slot` changed and memories
    /// only added?
    closed spec fn others_kept(&self, old: &SmsVirtualMemory, slot: int) -> bool {
        &&& forall|i: int|
            0 <= i < 0x10000 && !(slot * 0x4000 <= i < slot * 0x4000 + 0x4000) ==> {
                &&& #[trigger] self.read_mem.spec_frame(i) == old.read_mem.spec_frame(i)
                &&& self.write_mem.spec_frame(i) == old.write_mem.spec_frame(i)
            }
        &&& forall|s: int| 0 <= s < 4 && s != slot ==> #[trigger] self.pages[s] == old.pages[s]
        &&& forall|s: int|
            0 <= s < 4 && s != slot ==> #[trigger] self.rom_but_1@[s] == old.rom_but_1@[s]
        &&& self.rom == old.rom
        &&& self.system_ram == old.system_ram
        &&& self.scrap == old.scrap
        &&& self.vm_kept_except(old, Owner::RomCopy(slot as u8))
        &&& (old.main_cartridge_ram matches MainCartridgeRam::One(x) ==> (
        (self.main_cartridge_ram matches MainCartridgeRam::One(x1) && x1 == x) || (
        self.main_cartridge_ram matches MainCartridgeRam::Two(x2, _) && x2 == x)))
        &&& (old.main_cartridge_ram is Two ==> self.main_cartridge_ram == old.main_cartridge_ram)
        &&& (old.half_cartridge_ram is Some ==> self.half_cartridge_ram == old.half_cartridge_ram)
    }

    /// A slot that was mapped is still mapped when the other slots' changes
    /// leave it alone.
    #[verifier::spinoff_prover]
    proof fn lemma_others_kept(&self, old: &SmsVirtualMemory, slot: int, s: int)
        requires
            0 <= slot < 4,
            self.others_kept(old, slot),
            self.memories_ok_but_frames(),
            old.memories_ok_but_frames(),
            0 <= s < 4,
            s != slot,
            old.slot_ok(s),
            old.slot_mapped(s),
        ensures
            self.slot_ok(s),
            self.slot_mapped(s),
    {
        let tag = Owner::RomCopy(slot as u8);
        self.lemma_memory_kept(old, tag, old.rom.0, old.rom.0.spec_len() as int, Owner::Rom);
        assert forall|o: int| 0 <= o < 0x4000 implies {
            &&& #[trigger] self.read_mem.spec_frame(s * 0x4000 + o).position == self.read_pos(s, o)
            &&& self.write_mem.spec_frame(s * 0x4000 + o).position == self.write_pos(s, o)
            &&& self.write_mem.spec_frame(s * 0x4000 + o).write
        } by {
            assert(old.read_mem.spec_frame(s * 0x4000 + o).position == old.read_pos(s, o));
            assert(self.read_mem.spec_frame(s * 0x4000 + o) == old.read_mem.spec_frame(s * 0x4000 + o));
        }
        if old.pages[s] is RomButFirstKiB {
            match old.rom_but_1@[s] {
                Some(x) => {
                    assert(old.rom_but_1@[s] == self.rom_but_1@[s]);
                    assert(s as u8 != slot as u8);
                    self.lemma_memory_kept(old, tag, x, 0x4000, Owner::RomCopy(s as u8));
                },
                None => {},
            }
        }
    }

    /// Where a slot that can show its page reads and writes lies within the
    /// memories.
    proof fn lemma_pos_in_bounds(&self, slot: int, o: int)
        requires
            0 <= slot < 4,
            0 <= o < 0x4000,
            self.memories_ok_but_frames(),
            self.slot_ok(slot),
        ensures
            0 <= self.read_pos(slot, o) < self.vm@.len(),
            0 <= self.write_pos(slot, o) < self.vm@.len(),
    {
        lemma_physical_frames(&self.vm, &self.rom.0);
        lemma_physical_frames(&self.vm, &self.system_ram);
        lemma_physical_frames(&self.vm, &self.scrap);
        match self.main_cartridge_ram {
            MainCartridgeRam::One(x) => {
                lemma_physical_frames(&self.vm, &x);
            },
            MainCartridgeRam::Two(x, y) => {
                lemma_physical_frames(&self.vm, &x);
                lemma_physical_frames(&self.vm, &y);
            },
            MainCartridgeRam::Zero => {},
        }
        match self.half_cartridge_ram {
            Some(x) => {
                lemma_physical_frames(&self.vm, &x);
            },
            None => {},
        }
        if self.pages[slot] is RomButFirstKiB {
            match self.rom_but_1@[slot] {
                Some(x) => {
                    lemma_physical_frames(&self.vm, &x);
                },
                None => {},
            }
        }
        let sl = self.system_ram.spec_len() as int;
        assert(0 <= o % sl < sl) by {
            vstd::arithmetic::div_mod::lemma_mod_bound(o, sl);
        }
        assert(0 <= o % 0x2000 < 0x2000);
    }

    /// The frames of `slot` show its page, and every frame lies within the
    /// memories.
    #[verifier::spinoff_prover]
    #[verifier::rlimit(30)]
    proof fn lemma_slot_done(&self, old: &SmsVirtualMemory, slot: int)
        requires
            0 <= slot < 4,
            old.memories_ok(),
            self.memories_ok_but_frames(),
            old.vm@.len() <= self.vm@.len(),
            self.slot_ok(slot),
            forall|o: int|
                0 <= o < 0x4000 ==> #[trigger] self.read_mem.spec_frame(slot * 0x4000 + o).position
                    == self.read_pos(slot, o),
            forall|o: int|
                0 <= o < 0x4000 ==> #[trigger] self.write_mem.spec_frame(slot * 0x4000 + o).position
                    == self.write_pos(slot, o) && self.write_mem.spec_frame(slot * 0x4000 + o).write,
            forall|i: int|
                0 <= i < 0x10000 && !(slot * 0x4000 <= i < slot * 0x4000 + 0x4000) ==> {
                    &&& #[trigger] self.read_mem.spec_frame(i) == old.read_mem.spec_frame(i)
                    &&& self.write_mem.spec_frame(i) == old.write_mem.spec_frame(i)
                },
        ensures
            self.memories_ok(),
            self.slot_mapped(slot),
    {
        assert forall|o: int| 0 <= o < 0x4000 implies {
            &&& #[trigger] self.read_mem.spec_frame(slot * 0x4000 + o).position == self.read_pos(slot, o)
            &&& self.write_mem.spec_frame(slot * 0x4000 + o).position == self.write_pos(slot, o)
            &&& self.write_mem.spec_frame(slot * 0x4000 + o).write
        } by {
            assert(self.write_mem.spec_frame(slot * 0x4000 + o).position == self.write_pos(slot, o));
        }
        assert forall|i: int| 0 <= i < 0x10000 implies #[trigger] self.read_mem.spec_frame(i).position
            < self.vm@.len() && self.write_mem.spec_frame(i).position < self.vm@.len() by {
            if slot * 0x4000 <= i < slot * 0x4000 + 0x4000 {
                let o = i - slot * 0x4000;
                assert(self.read_mem.spec_frame(slot * 0x4000 + o).position == self.read_pos(slot, o));
                assert(self.write_mem.spec_frame(slot * 0x4000 + o).position == self.write_pos(slot, o));
                self.lemma_pos_in_bounds(slot, o);
            } else {
                assert(old.read_mem.spec_frame(i).position < old.vm@.len());
                assert(old.write_mem.spec_frame(i).position < old.vm@.len());
            }
        }
        assert forall|i: int| 0 <= i < 0x10000 implies #[trigger] self.write_mem.spec_frame(i).position
            < self.vm@.len() by {
            assert(self.read_mem.spec_frame(i).position < self.vm@.len());
        }
    }
}

impl SmsVirtualMemory {
    /// Has only the arena grown, at its end, with the same owners for the
    /// bytes it had?
    closed spec fn grown_from(&self, old: &SmsVirtualMemory) -> bool {
        &&& self.vm@.len() >= old.vm@.len()
        &&& self.vm@.subrange(0, old.vm@.len() as int) == old.vm@
        &&& self.owners@.len() == self.vm@.len()
        &&& forall|k: int| 0 <= k < old.owners@.len() ==> #[trigger] self.owners@[k] == old.owners@[k]
        &&& self.rom == old.rom
        &&& self.system_ram == old.system_ram
        &&& self.scrap == old.scrap
        &&& self.pages == old.pages
        &&& self.mapper == old.mapper
        &&& self.read_mem == old.read_mem
        &&& self.write_mem == old.write_mem
    }

    /// After the arena grew, the memories that were there still are, with
    /// the same bytes.
    #[verifier::spinoff_prover]
    proof fn lemma_grown(&self, old: &SmsVirtualMemory)
        requires
            old.memories_ok(),
            self.grown_from(old),
        ensures
            self.vm_kept_except(old, Owner::Other),
            self.memory_ok(self.rom.0, self.rom.0.spec_len() as int, Owner::Rom),
            self.memory_ok(self.system_ram, self.system_ram.spec_len() as int, Owner::SystemRam),
            self.memory_ok(self.scrap, 0x2000, Owner::Scrap),
            self.spec_rom() == old.spec_rom(),
            self.spec_system_ram() == old.spec_system_ram(),
            self.vm.holds(&self.read_mem),
            self.vm.holds(&self.write_mem),
            forall|s: int|
                0 <= s < 4 ==> match #[trigger] old.rom_but_1@[s] {
                    Some(x) => self.memory_ok(x, 0x4000, Owner::RomCopy(s as u8))
                        && self.vm.contents(&x) == old.vm.contents(&x),
                    None => true,
                },
            match old.main_cartridge_ram {
                MainCartridgeRam::Zero => true,
                MainCartridgeRam::One(x) => self.memory_ok(x, 0x4000, Owner::MainRam(0))
                    && self.vm.contents(&x) == old.vm.contents(&x),
                MainCartridgeRam::Two(x, y) => self.memory_ok(x, 0x4000, Owner::MainRam(0))
                    && self.vm.contents(&x) == old.vm.contents(&x) && self.memory_ok(
                    y,
                    0x4000,
                    Owner::MainRam(1),
                ) && self.vm.contents(&y) == old.vm.contents(&y),
            },
            match old.half_cartridge_ram {
                None => true,
                Some(x) => self.memory_ok(x, 0x2000, Owner::HalfRam) && self.vm.contents(&x)
                    == old.vm.contents(&x),
            },
    {
        assert forall|k: int| 0 <= k < old.vm@.len() && old.owners@[k] != Owner::Other implies #[trigger] self.vm@[k]
            == old.vm@[k] by {
            assert(self.vm@.subrange(0, old.vm@.len() as int)[k] == old.vm@[k]);
        }
        assert forall|k: int| 0 <= k < old.vm@.len() implies #[trigger] self.vm@[k]
            == old.vm@[k] by {
            assert(self.vm@.subrange(0, old.vm@.len() as int)[k] == old.vm@[k]);
        }
        let t = Owner::Other;
        self.lemma_memory_kept(old, t, self.rom.0, self.rom.0.spec_len() as int, Owner::Rom);
        self.lemma_memory_kept(old, t, self.system_ram, self.system_ram.spec_len() as int, Owner::SystemRam);
        self.lemma_memory_kept(old, t, self.scrap, 0x2000, Owner::Scrap);
        super::lemma_holds_grow(&old.vm, &self.vm, &self.read_mem);
        super::lemma_holds_grow(&old.vm, &self.vm, &self.write_mem);
        assert forall|s: int| 0 <= s < 4 implies match #[trigger] old.rom_but_1@[s] {
            Some(x) => self.memory_ok(x, 0x4000, Owner::RomCopy(s as u8)) && self.vm.contents(&x)
                == old.vm.contents(&x),
            None => true,
        } by {
            match old.rom_but_1@[s] {
                Some(x) => {
                    self.lemma_memory_kept(old, t, x, 0x4000, Owner::RomCopy(s as u8));
                },
                None => {},
            }
        }
        match old.main_cartridge_ram {
            MainCartridgeRam::One(x) => {
                self.lemma_memory_kept(old, t, x, 0x4000, Owner::MainRam(0));
            },
            MainCartridgeRam::Two(x, y) => {
                self.lemma_memory_kept(old, t, x, 0x4000, Owner::MainRam(0));
                self.lemma_memory_kept(old, t, y, 0x4000, Owner::MainRam(1));
            },
            MainCartridgeRam::Zero => {},
        }
        match old.half_cartridge_ram {
            Some(x) => {
                self.lemma_memory_kept(old, t, x, 0x2000, Owner::HalfRam);
            },
            None => {},
        }
    }

    /// Allocate `len` zeroed bytes owned by `o`.
    fn allocate(&mut self, len: usize, o: Ghost<Owner>) -> (r: PhysicalMemory<u8>)
        requires
            old(self).memories_ok(),
            len > 0,
            old(self).vm@.len() + len <= usize::MAX,
        ensures
            final(self).grown_from(old(self)),
            final(self).main_cartridge_ram == old(self).main_cartridge_ram,
            final(self).half_cartridge_ram == old(self).half_cartridge_ram,
            final(self).rom_but_1 == old(self).rom_but_1,
            final(self).vm@.len() == old(self).vm@.len() + len,
            r.spec_start() == old(self).vm@.len(),
            r.spec_write(),
            final(self).memory_ok(r, len as int, o@),
            final(self).vm.contents(&r) == zeros(len as nat),
    {
        let r = self.vm.allocate_physical(len, true, false);
        proof {
            self.owners@ = self.owners@ + Seq::new(len as nat, |i: int| o@);
            lemma_physical_frames(&self.vm, &r);
        }
        assert forall|k: int| 0 <= k < len implies #[trigger] self.vm.contents(&r)[k] == zeros(len as nat)[k] by {
            assert(call_ensures(u8::default, (), self.vm.contents(&r)[k]));
        }
        assert(self.vm.contents(&r) =~= zeros(len as nat));
        r
    }
}

impl SmsVirtualMemory {
    /// What every allocation of cartridge RAM or of a copied page keeps.
    closed spec fn allocated_from(&self, old: &SmsVirtualMemory) -> bool {
        &&& self.memories_ok()
        &&& self.grown_from(old)
        &&& self.same_contents(old)
        &&& (old.main_cartridge_ram matches MainCartridgeRam::One(x) ==> (
        (self.main_cartridge_ram matches MainCartridgeRam::One(x1) && x1 == x) || (
        self.main_cartridge_ram matches MainCartridgeRam::Two(x2, _) && x2 == x)))
        &&& (old.main_cartridge_ram is Two ==> self.main_cartridge_ram == old.main_cartridge_ram)
        &&& (old.half_cartridge_ram is Some ==> self.half_cartridge_ram == old.half_cartridge_ram)
    }

    /// Allocate the first page of main cartridge RAM, if there is none.
    fn ensure_one_page(&mut self)
        requires
            old(self).memories_ok(),
        ensures
            final(self).allocated_from(old(self)),
            final(self).half_cartridge_ram == old(self).half_cartridge_ram,
            final(self).rom_but_1 == old(self).rom_but_1,
            !(final(self).main_cartridge_ram is Zero),
    {
        if let MainCartridgeRam::Zero = self.main_cartridge_ram {
            let x = self.allocate(0x4000, Ghost(Owner::MainRam(0)));
            self.main_cartridge_ram = MainCartridgeRam::One(x);
            proof {
                self.lemma_grown(old(self));
            }
            assert(self.spec_main_ram(0) =~= old(self).spec_main_ram(0));
        } else {
            proof {
                assert(self.vm@.subrange(0, old(self).vm@.len() as int) =~= old(self).vm@);
                self.lemma_grown(old(self));
            }
        }
    }

    /// Allocate both pages of main cartridge RAM, keeping a first page there
    /// is.
    #[verifier::spinoff_prover]
    fn ensure_two_pages(&mut self)
        requires
            old(self).memories_ok(),
        ensures
            final(self).allocated_from(old(self)),
            final(self).half_cartridge_ram == old(self).half_cartridge_ram,
            final(self).rom_but_1 == old(self).rom_but_1,
            final(self).main_cartridge_ram is Two,
    {
        self.ensure_one_page();
        let ghost mid = *self;
        if let MainCartridgeRam::One(_) = self.main_cartridge_ram {
            let y = self.allocate(0x4000, Ghost(Owner::MainRam(1)));
            let mut ram = MainCartridgeRam::Zero;
            std::mem::swap(&mut ram, &mut self.main_cartridge_ram);
            if let MainCartridgeRam::One(x) = ram {
                self.main_cartridge_ram = MainCartridgeRam::Two(x, y);
            }
            proof {
                self.lemma_grown(&mid);
            }
            assert(self.spec_main_ram(1) =~= mid.spec_main_ram(1));
        } else {
            proof {
                assert(self.vm@.subrange(0, mid.vm@.len() as int) =~= mid.vm@);
                self.lemma_grown(&mid);
            }
        }
        proof {
            assert(self.vm@.subrange(0, old(self).vm@.len() as int) =~= old(self).vm@) by {
                assert(mid.vm@.subrange(0, old(self).vm@.len() as int) == old(self).vm@);
                assert(self.vm@.subrange(0, mid.vm@.len() as int) == mid.vm@);
            }
        }
    }

    /// Allocate the half page of cartridge RAM, if there is none.
    fn ensure_half_page(&mut self)
        requires
            old(self).memories_ok(),
        ensures
            final(self).allocated_from(old(self)),
            final(self).main_cartridge_ram == old(self).main_cartridge_ram,
            final(self).rom_but_1 == old(self).rom_but_1,
            final(self).half_cartridge_ram is Some,
    {
        if self.half_cartridge_ram.is_none() {
            let x = self.allocate(0x2000, Ghost(Owner::HalfRam));
            self.half_cartridge_ram = Some(x);
            proof {
                self.lemma_grown(old(self));
            }
            assert(self.spec_half_ram() =~= old(self).spec_half_ram());
        } else {
            proof {
                assert(self.vm@.subrange(0, old(self).vm@.len() as int) =~= old(self).vm@);
                self.lemma_grown(old(self));
            }
        }
    }
}

impl SmsVirtualMemory {
    /// Give `slot` its own copied page, if it has none.
    #[verifier::spinoff_prover]
    fn ensure_rom_copy(&mut self, slot: u8)
        requires
            old(self).memories_ok(),
            slot < 4,
        ensures
            final(self).allocated_from(old(self)),
            final(self).main_cartridge_ram == old(self).main_cartridge_ram,
            final(self).half_cartridge_ram == old(self).half_cartridge_ram,
            forall|s: int| 0 <= s < 4 && s != slot ==> #[trigger] final(self).rom_but_1@[s] == old(self).rom_but_1@[s],
            final(self).rom_but_1@.len() == 4,
            final(self).rom_but_1@[slot as int] is Some,
    {
        if self.rom_but_1[slot as usize].is_none() {
            let x = self.allocate(0x4000, Ghost(Owner::RomCopy(slot)));
            self.rom_but_1.set(slot as usize, Some(x));
            proof {
                self.lemma_grown(old(self));
                assert forall|s: int|
                    0 <= s < 4 implies match #[trigger] self.rom_but_1@[s] {
                        Some(x) => self.memory_ok(x, 0x4000, Owner::RomCopy(s as u8)) && x.spec_write(),
                        None => true,
                    } by {
                    if s != slot {
                        assert(self.rom_but_1@[s] == old(self).rom_but_1@[s]);
                    }
                }
            }
        } else {
            proof {
                assert(self.vm@.subrange(0, old(self).vm@.len() as int) =~= old(self).vm@);
                self.lemma_grown(old(self));
            }
        }
    }

    /// Fill the copied page of `slot` with the first KiB of ROM, then the
    /// rest of ROM page `p`.
    #[verifier::spinoff_prover]
    fn fill_rom_copy(&mut self, slot: u8, p: u8)
        requires
            old(self).memories_ok(),
            slot < 4,
            old(self).rom_but_1@[slot as int] is Some,
            (p + 1) * 0x4000 <= old(self).rom.0.spec_len(),
        ensures
            final(self).memories_ok(),
            final(self).same_contents(old(self)),
            final(self).vm_kept_except(old(self), Owner::RomCopy(slot)),
            final(self).vm@.len() == old(self).vm@.len(),
            final(self).owners == old(self).owners,
            final(self).rom == old(self).rom,
            final(self).system_ram == old(self).system_ram,
            final(self).scrap == old(self).scrap,
            final(self).main_cartridge_ram == old(self).main_cartridge_ram,
            final(self).half_cartridge_ram == old(self).half_cartridge_ram,
            final(self).rom_but_1 == old(self).rom_but_1,
            final(self).pages == old(self).pages,
            final(self).mapper == old(self).mapper,
            final(self).read_mem == old(self).read_mem,
            final(self).write_mem == old(self).write_mem,
            match final(self).rom_but_1@[slot as int] {
                Some(x) => final(self).vm.contents(&x) == rom_copy(old(self).spec_rom(), p as int),
                None => false,
            },
    {
        let ghost tag = Owner::RomCopy(slot);
        let ghost rom = old(self).spec_rom();
        proof {
            lemma_physical_frames(&self.vm, &self.rom.0);
        }
        let ghost rs = self.rom.0.spec_start() as int;
        let base = p as usize * 0x4000;
        match &self.rom_but_1[slot as usize] {
            Some(x) => {
                proof {
                    assert(self.memory_ok(*x, 0x4000, tag));
                    lemma_physical_frames(&self.vm, x);
                }
                let ghost xs = x.spec_start() as int;
                let mut i: usize = 0;
                while i < 0x4000
                    invariant
                        i <= 0x4000,
                        base == p * 0x4000,
                        tag == Owner::RomCopy(slot),
                        slot < 4,
                        (p + 1) * 0x4000 <= self.rom.0.spec_len(),
                        old(self).memories_ok(),
                        *self == (SmsVirtualMemory { vm: self.vm, ..*old(self) }),
                        old(self).rom_but_1@[slot as int] == Some(*x),
                        old(self).memory_ok(*x, 0x4000, tag),
                        old(self).memory_ok(self.rom.0, self.rom.0.spec_len() as int, Owner::Rom),
                        rs == self.rom.0.spec_start(),
                        xs == x.spec_start(),
                        xs + 0x4000 <= self.vm@.len(),
                        rs + self.rom.0.spec_len() <= self.vm@.len(),
                        self.vm.holds(x),
                        self.vm.holds(&self.rom.0),
                        x.spec_len() == 0x4000,
                        x.spec_write(),
                        self.vm@.len() == old(self).vm@.len(),
                        rom == old(self).vm@.subrange(rs, rs + self.rom.0.spec_len()),
                        forall|k: int|
                            0 <= k < old(self).vm@.len() && old(self).owners@[k] != tag ==> #[trigger] self.vm@[k]
                                == old(self).vm@[k],
                        forall|k: int|
                            0 <= k < i ==> #[trigger] self.vm@[xs + k] == if k < 0x400 {
                                rom[k]
                            } else {
                                rom[base + k]
                            },
                    decreases 0x4000 - i,
                {
                    let from = if i < 0x400 {
                        i
                    } else {
                        base + i
                    };
                    proof {
                        assert(old(self).owners@[rs + from] == Owner::Rom);
                        assert(old(self).owners@[xs + i] == tag);
                        lemma_physical_frames(&self.vm, &self.rom.0);
                        lemma_physical_frames(&self.vm, x);
                    }
                    let b = self.vm.get(&self.rom.0, from);
                    assert(b == rom[from as int]) by {
                        assert(self.vm@[rs + from] == old(self).vm@[rs + from]);
                    }
                    let ghost before = self.vm@;
                    self.vm.set(x, i, b);
                    assert forall|k: int| 0 <= k < i + 1 implies #[trigger] self.vm@[xs + k] == if k < 0x400 {
                        rom[k]
                    } else {
                        rom[base + k]
                    } by {
                        if k < i {
                            assert(self.vm@[xs + k] == before[xs + k]);
                        }
                    }
                    i = i + 1;
                }
                proof {
                    lemma_physical_frames(&self.vm, x);
                    assert(self.vm.contents(x) =~= rom_copy(rom, p as int));
                }
            },
            None => {},
        }
        proof {
            self.lemma_memory_kept(old(self), tag, self.rom.0, self.rom.0.spec_len() as int, Owner::Rom);
            self.lemma_memory_kept(old(self), tag, self.system_ram, self.system_ram.spec_len() as int, Owner::SystemRam);
            self.lemma_memory_kept(old(self), tag, self.scrap, 0x2000, Owner::Scrap);
            assert forall|s: int|
                0 <= s < 4 implies match #[trigger] self.rom_but_1@[s] {
                    Some(x) => self.memory_ok(x, 0x4000, Owner::RomCopy(s as u8)) && x.spec_write(),
                    None => true,
                } by {
                match self.rom_but_1@[s] {
                    Some(y) => {
                        assert(old(self).memory_ok(y, 0x4000, Owner::RomCopy(s as u8)));
                    },
                    None => {},
                }
            }
            let ghost main = self.main_cartridge_ram;
            match main {
                MainCartridgeRam::One(x) => {
                    self.lemma_memory_kept(old(self), tag, x, 0x4000, Owner::MainRam(0));
                },
                MainCartridgeRam::Two(x, y) => {
                    self.lemma_memory_kept(old(self), tag, x, 0x4000, Owner::MainRam(0));
                    self.lemma_memory_kept(old(self), tag, y, 0x4000, Owner::MainRam(1));
                },
                MainCartridgeRam::Zero => {},
            }
            let ghost half = self.half_cartridge_ram;
            match half {
                Some(x) => {
                    self.lemma_memory_kept(old(self), tag, x, 0x2000, Owner::HalfRam);
                },
                None => {},
            }
            super::lemma_holds_grow(&old(self).vm, &self.vm, &self.read_mem);
            super::lemma_holds_grow(&old(self).vm, &self.vm, &self.write_mem);
        }
    }
}

impl SmsVirtualMemory {
    /// Do the frames of `slot` read at `read(o)` and write at `write(o)`,
    /// with the other slots' frames as in `old`?
    closed spec fn frames_set(
        &self,
        old: &SmsVirtualMemory,
        slot: int,
        read: spec_fn(int) -> int,
        write: spec_fn(int) -> int,
    ) -> bool {
        &&& self.read_mem.spec_len() == 0x10000
        &&& self.write_mem.spec_len() == 0x10000
        &&& forall|i: int|
            slot * 0x4000 <= i < slot * 0x4000 + 0x4000 ==> #[trigger] self.read_mem.spec_frame(
                i,
            ).position == read(i - slot * 0x4000)
        &&& forall|i: int|
            slot * 0x4000 <= i < slot * 0x4000 + 0x4000 ==> #[trigger] self.write_mem.spec_frame(
                i,
            ).position == write(i - slot * 0x4000) && self.write_mem.spec_frame(i).write
        &&& forall|i: int|
            0 <= i < 0x10000 && !(slot * 0x4000 <= i < slot * 0x4000 + 0x4000) ==> #[trigger] self.read_mem.spec_frame(i)
                == old.read_mem.spec_frame(i)
        &&& forall|i: int|
            0 <= i < 0x10000 && !(slot * 0x4000 <= i < slot * 0x4000 + 0x4000) ==> #[trigger] self.write_mem.spec_frame(i)
                == old.write_mem.spec_frame(i)
    }

    /// Map `slot` onto system RAM, repeated through the slot.
    #[verifier::spinoff_prover]
    fn map_system_ram(&mut self, slot: u8)
        requires
            old(self).memories_ok(),
            slot < 4,
        ensures
            final(self).frames_set(
                old(self),
                slot as int,
                |o: int| old(self).system_ram.spec_start() + o % (old(self).system_ram.spec_len() as int),
                |o: int| old(self).system_ram.spec_start() + o % (old(self).system_ram.spec_len() as int),
            ),
            final(self).vm == old(self).vm,
            final(self).owners == old(self).owners,
            final(self).rom == old(self).rom,
            final(self).system_ram == old(self).system_ram,
            final(self).scrap == old(self).scrap,
            final(self).main_cartridge_ram == old(self).main_cartridge_ram,
            final(self).half_cartridge_ram == old(self).half_cartridge_ram,
            final(self).rom_but_1 == old(self).rom_but_1,
            final(self).pages == old(self).pages,
            final(self).mapper == old(self).mapper,
    {
        proof {
            use_type_invariant(&self.system_ram);
        }
        let len = self.system_ram.len();
        let base = slot as usize * 0x4000;
        let count = 0x4000 / len;
        assert(count * len == 0x4000) by (nonlinear_arith)
            requires
                count == 0x4000usize / len,
                len == 0x1000 || len == 0x2000 || len == 0x4000,
        ;
        let ghost sys = self.system_ram.spec_start();
        let mut i: usize = 0;
        while i < count
            invariant
                i <= count,
                count * len == 0x4000,
                len == old(self).system_ram.spec_len(),
                (len == 0x1000 || len == 0x2000 || len == 0x4000),
                base == slot * 0x4000,
                slot < 4,
                sys == old(self).system_ram.spec_start(),
                sys + len <= usize::MAX,
                self.system_ram == old(self).system_ram,
                self.system_ram.spec_write(),
                self.vm == old(self).vm,
                self.owners == old(self).owners,
                self.rom == old(self).rom,
                self.scrap == old(self).scrap,
                self.main_cartridge_ram == old(self).main_cartridge_ram,
                self.half_cartridge_ram == old(self).half_cartridge_ram,
                self.rom_but_1 == old(self).rom_but_1,
                self.pages == old(self).pages,
                self.mapper == old(self).mapper,
                self.read_mem.spec_len() == 0x10000,
                self.write_mem.spec_len() == 0x10000,
                forall|k: int|
                    base <= k < base + i * len ==> #[trigger] self.read_mem.spec_frame(k).position
                        == sys + (k - base) % (len as int),
                forall|k: int|
                    base <= k < base + i * len ==> #[trigger] self.write_mem.spec_frame(k).position
                        == sys + (k - base) % (len as int) && self.write_mem.spec_frame(k).write,
                forall|k: int|
                    0 <= k < 0x10000 && !(base <= k < base + i * len) ==> #[trigger] self.read_mem.spec_frame(k)
                        == old(self).read_mem.spec_frame(k),
                forall|k: int|
                    0 <= k < 0x10000 && !(base <= k < base + i * len) ==> #[trigger] self.write_mem.spec_frame(k)
                        == old(self).write_mem.spec_frame(k),
            decreases count - i,
        {
            assert((i + 1) * len <= 0x4000) by (nonlinear_arith)
                requires
                    i < count,
                    count * len == 0x4000,
            ;
            assert((i * len) % 0x1000 == 0) by (nonlinear_arith)
                requires
                    len == 0x1000 || len == 0x2000 || len == 0x4000,
            ;
            let off = base + i * len;
            map_both(&mut self.read_mem, &mut self.write_mem, &self.system_ram, off, len);
            assert forall|k: int| off <= k < off + len implies #[trigger] self.read_mem.spec_frame(
                k,
            ).position == sys + (k - base) % (len as int) && self.write_mem.spec_frame(k).position
                == sys + (k - base) % (len as int) by {
                assert(k - base == i * len + (k - off));
                vstd::arithmetic::div_mod::lemma_mod_multiples_vanish(i as int, k - off, len as int);
                vstd::arithmetic::div_mod::lemma_small_mod((k - off) as nat, len as nat);
            }
            i = i + 1;
        }
    }
}

impl SmsVirtualMemory {
    /// Is `slot` mapped anew onto its page, as `old` has it, with the other
    /// slots and the memories' bytes left as they were?
    closed spec fn slot_remapped(&self, old: &SmsVirtualMemory, slot: int) -> bool {
        &&& self.memories_ok_but_frames()
        &&& self.slot_ok(slot)
        &&& forall|o: int|
            0 <= o < 0x4000 ==> #[trigger] self.read_mem.spec_frame(slot * 0x4000 + o).position
                == self.read_pos(slot, o)
        &&& forall|o: int|
            0 <= o < 0x4000 ==> #[trigger] self.write_mem.spec_frame(slot * 0x4000 + o).position
                == self.write_pos(slot, o) && self.write_mem.spec_frame(slot * 0x4000 + o).write
        &&& self.others_kept(old, slot)
        &&& self.pages == old.pages
        &&& self.mapper == old.mapper
        &&& self.same_contents(old)
    }

    proof fn lemma_grown_kept(&self, old: &SmsVirtualMemory, tag: Owner)
        requires
            self.vm@.len() >= old.vm@.len(),
            self.vm@.subrange(0, old.vm@.len() as int) == old.vm@,
            self.owners@.len() == self.vm@.len(),
            old.owners@.len() == old.vm@.len(),
            forall|k: int| 0 <= k < old.owners@.len() ==> #[trigger] self.owners@[k] == old.owners@[k],
        ensures
            self.vm_kept_except(old, tag),
    {
        assert forall|k: int| 0 <= k < old.vm@.len() && old.owners@[k] != tag implies #[trigger] self.vm@[k]
            == old.vm@[k] by {
            assert(self.vm@.subrange(0, old.vm@.len() as int)[k] == old.vm@[k]);
        }
    }

    proof fn lemma_kept_trans(
        &self,
        mid: &SmsVirtualMemory,
        old: &SmsVirtualMemory,
        tag: Owner,
    )
        requires
            mid.vm_kept_except(old, tag),
            self.vm_kept_except(mid, tag),
            old.owners@.len() == old.vm@.len(),
        ensures
            self.vm_kept_except(old, tag),
    {
        assert forall|k: int| 0 <= k < old.vm@.len() && old.owners@[k] != tag implies #[trigger] self.vm@[k]
            == old.vm@[k] by {
            assert(mid.owners@[k] == old.owners@[k]);
            assert(mid.vm@[k] == old.vm@[k]);
        }
    }

    /// Map `slot` onto system RAM.
    #[verifier::spinoff_prover]
    fn map_slot_system_ram(&mut self, slot: u8)
        requires
            old(self).memories_ok(),
            slot < 4,
            old(self).pages[slot as int] is SystemRam,
        ensures
            final(self).slot_remapped(old(self), slot as int),
    {
        self.map_system_ram(slot);
        proof {
            let sl = self.system_ram.spec_len() as int;
            assert forall|o: int| 0 <= o < 0x4000 implies #[trigger] self.read_mem.spec_frame(
                slot * 0x4000 + o,
            ).position == self.read_pos(slot as int, o) by {
                assert(self.read_mem.spec_frame(slot * 0x4000 + o).position == (|o: int|
                    self.system_ram.spec_start() + o % sl)((slot * 0x4000 + o) - slot * 0x4000));
            }
            assert forall|o: int| 0 <= o < 0x4000 implies #[trigger] self.write_mem.spec_frame(
                slot * 0x4000 + o,
            ).position == self.write_pos(slot as int, o) && self.write_mem.spec_frame(
                slot * 0x4000 + o,
            ).write by {
                assert(self.write_mem.spec_frame(slot * 0x4000 + o).position == (|o: int|
                    self.system_ram.spec_start() + o % sl)((slot * 0x4000 + o) - slot * 0x4000));
            }
            assert(self.vm@.subrange(0, old(self).vm@.len() as int) =~= old(self).vm@);
            self.lemma_grown_kept(old(self), Owner::RomCopy(slot));
        }
    }
}

impl SmsVirtualMemory {
    /// Map `slot` onto a page of main cartridge RAM, allocating it first.
    #[verifier::spinoff_prover]
    fn map_slot_cartridge_ram(&mut self, slot: u8)
        requires
            old(self).memories_ok(),
            slot < 4,
            old(self).pages[slot as int] is FirstCartridgeRam || old(
                self,
            ).pages[slot as int] is SecondCartridgeRam,
        ensures
            final(self).slot_remapped(old(self), slot as int),
    {
        let off = slot as usize * 0x4000;
        if let MemoryPage::FirstCartridgeRam(_) = self.pages[slot as usize] {
            self.ensure_one_page();
            match &self.main_cartridge_ram {
                MainCartridgeRam::One(x) => {
                    map_both(&mut self.read_mem, &mut self.write_mem, x, off, 0x4000);
                },
                MainCartridgeRam::Two(x, _) => {
                    map_both(&mut self.read_mem, &mut self.write_mem, x, off, 0x4000);
                },
                MainCartridgeRam::Zero => {},
            }
        } else {
            self.ensure_two_pages();
            match &self.main_cartridge_ram {
                MainCartridgeRam::Two(_, y) => {
                    map_both(&mut self.read_mem, &mut self.write_mem, y, off, 0x4000);
                },
                _ => {},
            }
        }
        proof {
            self.lemma_grown_kept(old(self), Owner::RomCopy(slot));
        }
    }

    /// Map `slot` onto ROM page `p`, with writes going to the scrap page.
    #[verifier::spinoff_prover]
    fn map_slot_rom(&mut self, slot: u8, p: u8)
        requires
            old(self).memories_ok(),
            slot < 4,
            old(self).pages[slot as int] == MemoryPage::Rom(p),
            (p + 1) * 0x4000 <= old(self).rom.0.spec_len(),
        ensures
            final(self).slot_remapped(old(self), slot as int),
    {
        let off = slot as usize * 0x4000;
        map_scrap(&mut self.write_mem, &self.scrap, off);
        map_read(&mut self.read_mem, off, &self.rom.0, p as usize * 0x4000, 0x4000);
        proof {
            assert(self.vm@.subrange(0, old(self).vm@.len() as int) =~= old(self).vm@);
            self.lemma_grown_kept(old(self), Owner::RomCopy(slot));
        }
    }

    /// Map `slot` onto half a page of ROM page `p` and the half page of
    /// cartridge RAM, allocating it first.
    #[verifier::spinoff_prover]
    fn map_slot_half(&mut self, slot: u8, p: u8)
        requires
            old(self).memories_ok(),
            slot < 4,
            old(self).pages[slot as int] == MemoryPage::HalfCartridgeRam(p),
            p * 0x4000 + 0x2000 <= old(self).rom.0.spec_len(),
        ensures
            final(self).slot_remapped(old(self), slot as int),
    {
        let off = slot as usize * 0x4000;
        self.ensure_half_page();
        map_scrap(&mut self.write_mem, &self.scrap, off);
        map_read(&mut self.read_mem, off, &self.rom.0, p as usize * 0x4000, 0x2000);
        match &self.half_cartridge_ram {
            Some(x) => {
                map_both(&mut self.read_mem, &mut self.write_mem, x, off + 0x2000, 0x2000);
            },
            None => {},
        }
        proof {
            self.lemma_grown_kept(old(self), Owner::RomCopy(slot));
        }
    }
}

impl SmsVirtualMemory {
    /// Map `slot` onto its own copy of the first KiB of ROM followed by the
    /// rest of ROM page `p`, with writes going to the scrap page.
    #[verifier::spinoff_prover]
    fn map_slot_rom_copy(&mut self, slot: u8, p: u8)
        requires
            old(self).memories_ok(),
            slot < 4,
            old(self).pages[slot as int] == MemoryPage::RomButFirstKiB(p),
            (p + 1) * 0x4000 <= old(self).rom.0.spec_len(),
        ensures
            final(self).slot_remapped(old(self), slot as int),
    {
        let off = slot as usize * 0x4000;
        self.ensure_rom_copy(slot);
        let ghost mid = *self;
        self.fill_rom_copy(slot, p);
        map_scrap(&mut self.write_mem, &self.scrap, off);
        match &self.rom_but_1[slot as usize] {
            Some(x) => {
                map_read(&mut self.read_mem, off, x, 0, 0x4000);
            },
            None => {},
        }
        proof {
            mid.lemma_grown_kept(old(self), Owner::RomCopy(slot));
            self.lemma_kept_trans(&mid, old(self), Owner::RomCopy(slot));
        }
    }

    /// Does every slot but `slot` that was mapped in `old` stay mapped?
    closed spec fn kept_mapped(&self, old: &SmsVirtualMemory, slot: int) -> bool {
        forall|s: int|
            #![trigger self.slot_ok(s)]
            0 <= s < 4 && s != slot && old.slot_ok(s) && old.slot_mapped(s) ==> self.slot_ok(s)
                && self.slot_mapped(s)
    }

    /// A slot other than `slot` that was mapped stays mapped.
    #[verifier::spinoff_prover]
    proof fn lemma_other_remapped(&self, start: &SmsVirtualMemory, old: &SmsVirtualMemory, slot: int, s: int)
        requires
            0 <= slot < 4,
            0 <= s < 4,
            s != slot,
            old.memories_ok(),
            old.slot_ok(s),
            old.slot_mapped(s),
            *start == (SmsVirtualMemory { pages: start.pages, ..*old }),
            start.pages[s] == old.pages[s],
            self.slot_remapped(start, slot),
        ensures
            self.slot_ok(s),
            self.slot_mapped(s),
    {
        assert(start.slot_ok(s));
        assert forall|o: int| 0 <= o < 0x4000 implies {
            &&& #[trigger] start.read_mem.spec_frame(s * 0x4000 + o).position == start.read_pos(s, o)
            &&& start.write_mem.spec_frame(s * 0x4000 + o).position == start.write_pos(s, o)
            &&& start.write_mem.spec_frame(s * 0x4000 + o).write
        } by {
            assert(old.read_mem.spec_frame(s * 0x4000 + o).position == old.read_pos(s, o));
            assert(start.read_pos(s, o) == old.read_pos(s, o));
            assert(start.write_pos(s, o) == old.write_pos(s, o));
        }
        self.lemma_others_kept(start, slot, s);
    }

    /// Map `slot` onto `page`, whatever it was mapped to before.
    #[verifier::spinoff_prover]
    fn force_map_page(&mut self, slot: u8, page: MemoryPage)
        requires
            old(self).memories_ok(),
            slot < 4,
            Self::page_fits(page, old(self).rom.0.spec_len() as int),
        ensures
            final(self).memories_ok(),
            final(self).pages == spec_array_update(old(self).pages, slot as int, page),
            final(self).mapper == old(self).mapper,
            final(self).same_contents(old(self)),
            final(self).slot_ok(slot as int),
            final(self).slot_mapped(slot as int),
            final(self).kept_mapped(old(self), slot as int),
            final(self).rom == old(self).rom,
            final(self).spec_main_ram_len() >= old(self).spec_main_ram_len(),
            old(self).spec_has_half_ram() ==> final(self).spec_has_half_ram(),
    {
        self.pages[slot as usize] = page;
        let ghost start = *self;
        match page {
            MemoryPage::SystemRam => self.map_slot_system_ram(slot),
            MemoryPage::FirstCartridgeRam(_) => self.map_slot_cartridge_ram(slot),
            MemoryPage::SecondCartridgeRam(_) => self.map_slot_cartridge_ram(slot),
            MemoryPage::HalfCartridgeRam(p) => self.map_slot_half(slot, p),
            MemoryPage::Rom(p) => self.map_slot_rom(slot, p),
            MemoryPage::RomButFirstKiB(p) => self.map_slot_rom_copy(slot, p),
        }
        proof {
            assert(start.pages =~= spec_array_update(old(self).pages, slot as int, page));
            self.lemma_slot_done(&start, slot as int);
            assert forall|s: int|
                #![trigger self.slot_ok(s)]
                0 <= s < 4 && s != slot && old(self).slot_ok(s) && old(self).slot_mapped(s) implies self.slot_ok(s)
                    && self.slot_mapped(s) by {
                self.lemma_other_remapped(&start, old(self), slot as int, s);
            }
            assert(self.kept_mapped(old(self), slot as int));
        }
    }
}

impl SmsVirtualMemory {
    /// What a slot's read frame shows is the byte its page has there.
    proof fn lemma_read_byte(&self, slot: int, o: int)
        requires
            0 <= slot < 4,
            0 <= o < 0x4000,
            self.memories_ok_but_frames(),
            self.slot_ok(slot),
        ensures
            self.vm@[self.read_pos(slot, o)] == self.page_byte(self.pages[slot], o),
    {
        lemma_physical_frames(&self.vm, &self.rom.0);
        lemma_physical_frames(&self.vm, &self.system_ram);
        match self.main_cartridge_ram {
            MainCartridgeRam::One(x) => {
                lemma_physical_frames(&self.vm, &x);
            },
            MainCartridgeRam::Two(x, y) => {
                lemma_physical_frames(&self.vm, &x);
                lemma_physical_frames(&self.vm, &y);
            },
            MainCartridgeRam::Zero => {},
        }
        match self.half_cartridge_ram {
            Some(x) => {
                lemma_physical_frames(&self.vm, &x);
            },
            None => {},
        }
        let sl = self.system_ram.spec_len() as int;
        assert(0 <= o % sl < sl) by {
            vstd::arithmetic::div_mod::lemma_mod_bound(o, sl);
        }
        match self.pages[slot] {
            MemoryPage::RomButFirstKiB(p) => {
                match self.rom_but_1@[slot] {
                    Some(x) => {
                        lemma_physical_frames(&self.vm, &x);
                        let rom = self.spec_rom();
                        assert(rom_copy(rom, p as int)[o] == if o < 0x400 {
                            rom[o]
                        } else {
                            rom[p * 0x4000 + o]
                        });
                    },
                    None => {},
                }
            },
            _ => {},
        }
    }

    /// The byte at `address`.
    pub fn read(&self, address: u16) -> (r: u8)
        requires
            self.wf(),
        ensures
            r == self.spec_read(address),
    {
        let ghost slot = address as int / 0x4000;
        let ghost o = address as int % 0x4000;
        proof {
            assert(self.slot_ok(slot));
            assert(address as int == slot * 0x4000 + o);
            assert(self.read_mem.spec_frame(slot * 0x4000 + o).position == self.read_pos(slot, o));
            self.lemma_read_byte(slot, o);
        }
        self.vm.get(&self.read_mem, address as usize)
    }
}

impl SmsVirtualMemory {
    /// The ROM holds as many bytes as its memory.
    proof fn lemma_rom_len(&self)
        requires
            self.memories_ok_but_frames(),
        ensures
            self.spec_rom().len() == self.rom.0.spec_len(),
            self.spec_rom().len() % 0x4000 == 0,
            0 < self.spec_rom().len() <= 0x400000,
            self.spec_system_ram().len() == self.system_ram.spec_len(),
    {
        lemma_physical_frames(&self.vm, &self.rom.0);
        lemma_physical_frames(&self.vm, &self.system_ram);
    }

    /// Map `slot` to `page` as given.
    #[verifier::spinoff_prover]
    pub fn map_page_impl(&mut self, slot: u8, page: MemoryPage)
        requires
            old(self).wf(),
            slot < 4,
            Self::page_fits(page, old(self).spec_rom().len() as int),
        ensures
            final(self).wf(),
            final(self).spec_pages() == spec_array_update(old(self).spec_pages(), slot as int, page),
            final(self).spec_mapper() == old(self).spec_mapper(),
            final(self).same_contents(old(self)),
            final(self).spec_main_ram_len() >= old(self).spec_main_ram_len(),
            old(self).spec_has_half_ram() ==> final(self).spec_has_half_ram(),
    {
        proof {
            self.lemma_rom_len();
        }
        if self.pages[slot as usize] != page {
            self.force_map_page(slot, page);
            assert forall|s: int| 0 <= s < 4 implies #[trigger] self.slot_ok(s) && self.slot_mapped(s) by {
                if s != slot {
                    assert(old(self).wf());
                    assert(old(self).slot_ok(s));
                    assert(self.kept_mapped(old(self), slot as int));
                }
            }
            assert(self.wf());
        } else {
            assert(self.pages =~= spec_array_update(old(self).pages, slot as int, page));
        }
    }

    /// The number of ROM pages, as the mapper's 8 bit arithmetic sees it.
    fn rom_pages_u8_exec(&self) -> (r: u8)
        requires
            self.wf(),
        ensures
            r == self.rom_pages_u8(),
    {
        proof {
            self.lemma_rom_len();
        }
        ((self.rom.0.len() / 0x4000) % 256) as u8
    }

    /// Map `slot` to `page`. A ROM page is taken modulo the number of ROM
    /// pages.
    pub fn map_page(&mut self, slot: u8, page: MemoryPage)
        requires
            old(self).wf(),
            slot < 4,
            page matches MemoryPage::HalfCartridgeRam(p) ==> p * 0x4000 + 0x2000 <= old(
                self,
            ).spec_rom().len(),
        ensures
            final(self).wf(),
            final(self).spec_pages() == spec_array_update(
                old(self).spec_pages(),
                slot as int,
                normalize_page(page, old(self).rom_pages_u8()),
            ),
            final(self).spec_mapper() == old(self).spec_mapper(),
            final(self).same_contents(old(self)),
            final(self).spec_main_ram_len() >= old(self).spec_main_ram_len(),
            old(self).spec_has_half_ram() ==> final(self).spec_has_half_ram(),
    {
        let n = self.rom_pages_u8_exec();
        proof {
            self.lemma_rom_len();
        }
        let p = match page {
            MemoryPage::Rom(x) => MemoryPage::Rom(page_mod_exec(x, n)),
            MemoryPage::RomButFirstKiB(x) => MemoryPage::RomButFirstKiB(page_mod_exec(x, n)),
            x => x,
        };
        proof {
            let len = self.spec_rom().len() as int;
            let q = len / 0x4000;
            assert(q * 0x4000 == len);
            assert(1 <= q <= 256);
            match p {
                MemoryPage::Rom(y) => {
                    assert(y < q);
                    assert((y + 1) * 0x4000 <= len) by (nonlinear_arith)
                        requires y < q, q * 0x4000 == len;
                },
                MemoryPage::RomButFirstKiB(y) => {
                    assert(y < q);
                    assert((y + 1) * 0x4000 <= len) by (nonlinear_arith)
                        requires y < q, q * 0x4000 == len;
                },
                _ => {},
            }
        }
        self.map_page_impl(slot, p);
    }

    /// What memory page is `slot` mapped to?
    pub fn page(&self, slot: u8) -> (r: MemoryPage)
        requires
            slot < 4,
        ensures
            r == self.spec_pages()[slot as int],
    {
        self.pages[slot as usize]
    }

    pub fn mapper(&self) -> (r: SmsMemoryMapper)
        ensures
            r == self.spec_mapper(),
    {
        self.mapper
    }

    pub fn set_mapper(&mut self, mapper: SmsMemoryMapper)
        requires
            old(self).wf(),
        ensures
            final(self).wf(),
            final(self).spec_mapper() == mapper,
            final(self).spec_pages() == old(self).spec_pages(),
            final(self).same_contents(old(self)),
    {
        self.mapper = mapper;
        assert(old(self).wf());
        assert(self.memories_ok());
        assert forall|s: int| 0 <= s < 4 implies #[trigger] self.slot_ok(s) && self.slot_mapped(s) by {
            assert(old(self).slot_ok(s));
            assert(old(self).slot_mapped(s));
            assert(self.slot_ok(s));
            assert forall|o: int| 0 <= o < 0x4000 implies {
                &&& #[trigger] self.read_mem.spec_frame(s * 0x4000 + o).position == self.read_pos(s, o)
                &&& self.write_mem.spec_frame(s * 0x4000 + o).position == self.write_pos(s, o)
                &&& self.write_mem.spec_frame(s * 0x4000 + o).write
            } by {
                assert(old(self).read_mem.spec_frame(s * 0x4000 + o).position == old(self).read_pos(s, o));
                assert(self.read_pos(s, o) == old(self).read_pos(s, o));
                assert(self.write_pos(s, o) == old(self).write_pos(s, o));
            }
        }
    }

    /// How much ROM there is, in bytes.
    pub fn rom_len(&self) -> (r: usize)
        requires
            self.wf(),
        ensures
            r == self.spec_rom().len(),
    {
        proof {
            self.lemma_rom_len();
        }
        self.rom.0.len()
    }
}

/// `x % n`, or `x` when `n` is 0.
fn page_mod_exec(x: u8, n: u8) -> (r: u8)
    ensures
        r == page_mod(x, n),
{
    if n == 0 {
        x
    } else {
        x % n
    }
}

impl SmsVirtualMemory {
    /// What a write of `value` at `address` does to the Sega mapper.
    #[verifier::spinoff_prover]
    fn reg_sega(&mut self, address: u16, value: u8)
        requires
            old(self).wf(),
            old(self).mapper == SmsMemoryMapper::Sega,
        ensures
            final(self).wf(),
            final(self).pages == spec_register_pages(
                old(self).mapper,
                old(self).rom_pages_u8(),
                old(self).pages,
                address,
                value,
            ),
            final(self).mapper == old(self).mapper,
            final(self).same_contents(old(self)),
            final(self).spec_main_ram_len() >= old(self).spec_main_ram_len(),
            old(self).spec_has_half_ram() ==> final(self).spec_has_half_ram(),
    {
        let n = self.rom_pages_u8_exec();
        let page = page_mod_exec(value, n);
        if address == 0xFFFD {
            self.map_page(0, MemoryPage::RomButFirstKiB(page));
        } else if address == 0xFFFE {
            self.map_page(1, MemoryPage::Rom(page));
        } else if address == 0xFFFF {
            match self.page(2) {
                MemoryPage::FirstCartridgeRam(_) => self.map_page(
                    2,
                    MemoryPage::FirstCartridgeRam(page),
                ),
                MemoryPage::SecondCartridgeRam(_) => self.map_page(
                    2,
                    MemoryPage::SecondCartridgeRam(page),
                ),
                _ => self.map_page(2, MemoryPage::Rom(page)),
            }
        } else if address == 0xFFFC {
            let ram_slot2 = value & 0x8 != 0;
            let cartridge_ram_slot3 = value & 0x10 != 0;
            let second_ram_page_slot2 = value & 0x4 != 0;
            let slot2_rom_page = match self.page(2) {
                MemoryPage::Rom(x) => x,
                MemoryPage::FirstCartridgeRam(x) => x,
                MemoryPage::SecondCartridgeRam(x) => x,
                _ => 0,
            };
            if !ram_slot2 {
                self.map_page(2, MemoryPage::Rom(slot2_rom_page));
            } else if !second_ram_page_slot2 {
                self.map_page(2, MemoryPage::FirstCartridgeRam(slot2_rom_page));
            } else {
                self.map_page(2, MemoryPage::SecondCartridgeRam(slot2_rom_page));
            }
            if cartridge_ram_slot3 {
                self.map_page(3, MemoryPage::FirstCartridgeRam(0));
            } else {
                self.map_page(3, MemoryPage::SystemRam);
            }
        }
    }

    /// What a write of `value` at `address` does to the Codemasters mapper.
    fn reg_codemasters(&mut self, address: u16, value: u8)
        requires
            old(self).wf(),
            old(self).mapper == SmsMemoryMapper::Codemasters,
        ensures
            final(self).wf(),
            final(self).pages == spec_register_pages(
                old(self).mapper,
                old(self).rom_pages_u8(),
                old(self).pages,
                address,
                value,
            ),
            final(self).mapper == old(self).mapper,
            final(self).same_contents(old(self)),
            final(self).spec_main_ram_len() >= old(self).spec_main_ram_len(),
            old(self).spec_has_half_ram() ==> final(self).spec_has_half_ram(),
    {
        let n = self.rom_pages_u8_exec();
        let page = page_mod_exec(value, n);
        if address == 0x0000 {
            self.map_page(0, MemoryPage::Rom(page));
        } else if address == 0x4000 {
            self.map_page(1, MemoryPage::Rom(page));
        } else if address == 0x8000 {
            self.map_page(2, MemoryPage::Rom(page));
        }
    }

    /// Check whether a write of `value` at `address` goes to the mapper's
    /// registers, and map pages as it says.
    pub fn memory_register_check(&mut self, address: u16, value: u8)
        requires
            old(self).wf(),
        ensures
            final(self).wf(),
            final(self).spec_pages() == spec_register_pages(
                old(self).spec_mapper(),
                old(self).rom_pages_u8(),
                old(self).spec_pages(),
                address,
                value,
            ),
            final(self).spec_mapper() == old(self).spec_mapper(),
            final(self).same_contents(old(self)),
            final(self).spec_main_ram_len() >= old(self).spec_main_ram_len(),
            old(self).spec_has_half_ram() ==> final(self).spec_has_half_ram(),
    {
        match self.mapper {
            SmsMemoryMapper::Sega => self.reg_sega(address, value),
            SmsMemoryMapper::Codemasters => self.reg_codemasters(address, value),
            SmsMemoryMapper::Sg1000(_) => {},
        }
    }
}

impl SmsVirtualMemory {
    /// A memory one of whose bytes was set holds that byte there and its
    /// other bytes as before.
    proof fn lemma_contents_update(
        &self,
        before: &SmsVirtualMemory,
        m: PhysicalMemory<u8>,
        i: int,
        value: u8,
    )
        requires
            before.vm.holds(&m),
            m.in_range(),
            0 <= i < m.spec_len(),
            self.vm@ == before.vm@.update(m.spec_start() + i, value),
        ensures
            self.vm.contents(&m) == before.vm.contents(&m).update(i, value),
    {
        lemma_physical_frames(&before.vm, &m);
        assert(self.vm.contents(&m) =~= before.vm.contents(&m).update(i, value));
    }

    /// After a store into RAM or scrap, each slot still shows its page.
    proof fn lemma_store_slot(&self, before: &SmsVirtualMemory, pos: int, tag: Owner, s: int)
        requires
            before.wf(),
            0 <= s < 4,
            0 <= pos < before.vm@.len(),
            before.owners@[pos] == tag,
            tag is SystemRam || tag is MainRam || tag is HalfRam || tag is Scrap,
            *self == (SmsVirtualMemory { vm: self.vm, ..*before }),
            self.vm_kept_except(before, tag),
            self.spec_rom() == before.spec_rom(),
        ensures
            self.slot_ok(s),
            self.slot_mapped(s),
    {
        assert(before.slot_ok(s));
        assert(before.slot_mapped(s));
        if self.pages[s] is RomButFirstKiB {
            match self.rom_but_1@[s] {
                Some(x) => {
                    self.lemma_memory_kept(before, tag, x, 0x4000, Owner::RomCopy(s as u8));
                },
                None => {},
            }
        }
        assert forall|o: int| 0 <= o < 0x4000 implies {
            &&& #[trigger] self.read_mem.spec_frame(s * 0x4000 + o).position == self.read_pos(s, o)
            &&& self.write_mem.spec_frame(s * 0x4000 + o).position == self.write_pos(s, o)
            &&& self.write_mem.spec_frame(s * 0x4000 + o).write
        } by {
            assert(before.read_mem.spec_frame(s * 0x4000 + o).position == before.read_pos(s, o));
        }
        assert(self.slot_mapped(s));
    }

    /// Storing a byte in RAM or in the scrap page keeps the memory well
    /// formed, and every byte owned by another memory.
    #[verifier::spinoff_prover]
    proof fn lemma_store_kept(&self, before: &SmsVirtualMemory, pos: int, value: u8, tag: Owner)
        requires
            before.wf(),
            0 <= pos < before.vm@.len(),
            before.owners@[pos] == tag,
            tag is SystemRam || tag is MainRam || tag is HalfRam || tag is Scrap,
            *self == (SmsVirtualMemory { vm: self.vm, ..*before }),
            self.vm@ == before.vm@.update(pos, value),
        ensures
            self.wf(),
            self.vm_kept_except(before, tag),
            self.spec_rom() == before.spec_rom(),
    {
        assert(self.vm_kept_except(before, tag));
        self.lemma_memory_kept(before, tag, self.rom.0, self.rom.0.spec_len() as int, Owner::Rom);
        assert(self.memory_ok(self.system_ram, self.system_ram.spec_len() as int, Owner::SystemRam));
        assert(self.memory_ok(self.scrap, 0x2000, Owner::Scrap));
        let main = self.main_cartridge_ram;
        match main {
            MainCartridgeRam::One(x) => {
                assert(self.memory_ok(x, 0x4000, Owner::MainRam(0)));
            },
            MainCartridgeRam::Two(x, y) => {
                assert(self.memory_ok(x, 0x4000, Owner::MainRam(0)));
                assert(self.memory_ok(y, 0x4000, Owner::MainRam(1)));
            },
            MainCartridgeRam::Zero => {},
        }
        let half = self.half_cartridge_ram;
        match half {
            Some(x) => {
                assert(self.memory_ok(x, 0x2000, Owner::HalfRam));
            },
            None => {},
        }
        assert forall|s: int|
            0 <= s < 4 implies match #[trigger] self.rom_but_1@[s] {
                Some(x) => self.memory_ok(x, 0x4000, Owner::RomCopy(s as u8)) && x.spec_write(),
                None => true,
            } by {
            match self.rom_but_1@[s] {
                Some(x) => {
                    assert(before.memory_ok(x, 0x4000, Owner::RomCopy(s as u8)));
                },
                None => {},
            }
        }
        assert(self.memories_ok_but_frames());
        assert forall|s: int| 0 <= s < 4 implies #[trigger] self.slot_ok(s) && self.slot_mapped(s) by {
            self.lemma_store_slot(before, pos, tag, s);
        }
    }
}

impl SmsVirtualMemory {
    /// Write `value` at `address`: the mapper sees it first, then it is
    /// stored through the page the slot then shows (a store to ROM changes
    /// nothing).
    #[verifier::spinoff_prover]
    pub fn write(&mut self, address: u16, value: u8)
        requires
            old(self).wf(),
        ensures
            final(self).wf(),
            final(self).spec_mapper() == old(self).spec_mapper(),
            final(self).spec_pages() == spec_register_pages(
                old(self).spec_mapper(),
                old(self).rom_pages_u8(),
                old(self).spec_pages(),
                address,
                value,
            ),
            final(self).stored_from(old(self), address, value),
            final(self).spec_main_ram_len() >= old(self).spec_main_ram_len(),
            old(self).spec_has_half_ram() ==> final(self).spec_has_half_ram(),
    {
        self.memory_register_check(address, value);
        let ghost mid = *self;
        let ghost slot = address as int / 0x4000;
        let ghost o = address as int % 0x4000;
        proof {
            assert(mid.wf());
            assert(mid.slot_ok(slot));
            assert(mid.slot_mapped(slot));
            assert(address as int == slot * 0x4000 + o);
            assert(mid.read_mem.spec_frame(slot * 0x4000 + o).position == mid.read_pos(slot, o));
            assert(mid.write_mem.spec_frame(slot * 0x4000 + o).position == mid.write_pos(slot, o));
            mid.lemma_pos_in_bounds(slot, o);
        }
        self.vm.set(&self.write_mem, address as usize, value);
        proof {
            let pos = mid.write_pos(slot, o);
            lemma_physical_frames(&mid.vm, &mid.system_ram);
            lemma_physical_frames(&mid.vm, &mid.scrap);
            let sl = mid.system_ram.spec_len() as int;
            vstd::arithmetic::div_mod::lemma_mod_bound(o, sl);
            match mid.pages[slot] {
                MemoryPage::SystemRam => {
                    assert(mid.owners@[mid.system_ram.spec_start() + o % sl] == Owner::SystemRam);
                    self.lemma_store_kept(&mid, pos, value, Owner::SystemRam);
                    self.lemma_contents_update(&mid, mid.system_ram, o % sl, value);
                    self.lemma_other_contents(&mid, Owner::SystemRam);
                },
                MemoryPage::FirstCartridgeRam(_) => {
                    match mid.main_cartridge_ram {
                        MainCartridgeRam::One(x) => {
                            assert(mid.owners@[x.spec_start() + o] == Owner::MainRam(0));
                            self.lemma_store_kept(&mid, pos, value, Owner::MainRam(0));
                            self.lemma_contents_update(&mid, x, o, value);
                        },
                        MainCartridgeRam::Two(x, _) => {
                            assert(mid.owners@[x.spec_start() + o] == Owner::MainRam(0));
                            self.lemma_store_kept(&mid, pos, value, Owner::MainRam(0));
                            self.lemma_contents_update(&mid, x, o, value);
                        },
                        MainCartridgeRam::Zero => {},
                    }
                    self.lemma_other_contents(&mid, Owner::MainRam(0));
                },
                MemoryPage::SecondCartridgeRam(_) => {
                    match mid.main_cartridge_ram {
                        MainCartridgeRam::Two(_, y) => {
                            assert(mid.owners@[y.spec_start() + o] == Owner::MainRam(1));
                            self.lemma_store_kept(&mid, pos, value, Owner::MainRam(1));
                            self.lemma_contents_update(&mid, y, o, value);
                        },
                        _ => {},
                    }
                    self.lemma_other_contents(&mid, Owner::MainRam(1));
                },
                MemoryPage::HalfCartridgeRam(_) => {
                    if o >= 0x2000 {
                        match mid.half_cartridge_ram {
                            Some(x) => {
                                assert(mid.owners@[x.spec_start() + (o - 0x2000)] == Owner::HalfRam);
                                self.lemma_store_kept(&mid, pos, value, Owner::HalfRam);
                                self.lemma_contents_update(&mid, x, o - 0x2000, value);
                            },
                            None => {},
                        }
                        self.lemma_other_contents(&mid, Owner::HalfRam);
                    } else {
                        assert(mid.owners@[mid.scrap.spec_start() + o] == Owner::Scrap);
                        self.lemma_store_kept(&mid, pos, value, Owner::Scrap);
                        self.lemma_other_contents(&mid, Owner::Scrap);
                    }
                },
                _ => {
                    assert(mid.owners@[mid.scrap.spec_start() + o % 0x2000] == Owner::Scrap);
                    self.lemma_store_kept(&mid, pos, value, Owner::Scrap);
                    self.lemma_other_contents(&mid, Owner::Scrap);
                },
            }
        }
    }

    /// After a store into the memory owned by `tag`, the other memories
    /// hold what they held.
    proof fn lemma_other_contents(&self, before: &SmsVirtualMemory, tag: Owner)
        requires
            before.wf(),
            *self == (SmsVirtualMemory { vm: self.vm, ..*before }),
            self.vm_kept_except(before, tag),
        ensures
            tag != Owner::SystemRam ==> self.spec_system_ram() == before.spec_system_ram(),
            tag != Owner::MainRam(0) ==> self.spec_main_ram(0) == before.spec_main_ram(0),
            tag != Owner::MainRam(1) ==> self.spec_main_ram(1) == before.spec_main_ram(1),
            tag != Owner::HalfRam ==> self.spec_half_ram() == before.spec_half_ram(),
    {
        if tag != Owner::SystemRam {
            self.lemma_memory_kept(before, tag, self.system_ram, self.system_ram.spec_len() as int, Owner::SystemRam);
        }
        let main = self.main_cartridge_ram;
        match main {
            MainCartridgeRam::One(x) => {
                if tag != Owner::MainRam(0) {
                    self.lemma_memory_kept(before, tag, x, 0x4000, Owner::MainRam(0));
                }
            },
            MainCartridgeRam::Two(x, y) => {
                if tag != Owner::MainRam(0) {
                    self.lemma_memory_kept(before, tag, x, 0x4000, Owner::MainRam(0));
                }
                if tag != Owner::MainRam(1) {
                    self.lemma_memory_kept(before, tag, y, 0x4000, Owner::MainRam(1));
                }
            },
            MainCartridgeRam::Zero => {},
        }
        let half = self.half_cartridge_ram;
        match half {
            Some(x) => {
                if tag != Owner::HalfRam {
                    self.lemma_memory_kept(before, tag, x, 0x2000, Owner::HalfRam);
                }
            },
            None => {},
        }
    }
}

/// The length of a memory of `n` bytes once rounded up to whole pages.
pub open spec fn round_page(n: int) -> int {
    (n + 0xFFF) / 0x1000 * 0x1000
}

/// `tag` where `k` lies in `m`, else `other`.
spec fn tag_in(k: int, m: PhysicalMemory<u8>, tag: Owner, other: Owner) -> Owner {
    if m.spec_start() <= k < m.spec_start() + m.spec_len() {
        tag
    } else {
        other
    }
}

/// `tag` where `k` lies in `m`, if there is `m`, else `other`.
spec fn tag_in_opt(k: int, m: Option<PhysicalMemory<u8>>, tag: Owner, other: Owner) -> Owner {
    match m {
        Some(x) => tag_in(k, x, tag, other),
        None => other,
    }
}

impl SmsVirtualMemory {
    /// Can `state` be loaded as it is, if it is valid: every slot's page in
    /// the ROM (`check_valid` sees to that for ROM pages; a slot with half a
    /// page of cartridge RAM needs its ROM half too), and system RAM that
    /// mirrors evenly through a slot once rounded up to whole 4 KiB pages.
    /// (System RAM that rounds up to 12 KiB would fill only three quarters
    /// of a slot, and the rest of the slot would go on showing whatever it
    /// showed before.)
    pub open spec fn loadable(state: &SmsMemoryState) -> bool {
        state.spec_check_valid() is None ==> {
            &&& forall|s: int|
                0 <= s < 4 ==> #[trigger] Self::page_fits(state.pages[s], state.rom@.len() as int)
            &&& (0 < state.system_ram_len <= 0x2000 || 0x3000 < state.system_ram_len <= 0x4000)
        }
    }

    /// Does this memory hold what `state` holds? (System RAM is rounded up
    /// to whole pages with zeros.)
    pub open spec fn loaded_from(&self, state: &SmsMemoryState) -> bool {
        let len = state.system_ram_len as int;
        &&& self.spec_rom() == state.rom@
        &&& self.spec_system_ram() == state.system_ram@.subrange(0, len) + zeros(
            (round_page(len) - len) as nat,
        )
        &&& self.spec_main_ram(0) == state.main_page(0)@
        &&& self.spec_main_ram(1) == state.main_page(1)@
        &&& self.spec_half_ram() == state.half_page()@
        &&& self.spec_pages() == state.pages
        &&& self.spec_mapper() == state.mapper
    }
}


impl SmsVirtualMemory {
    /// Map every slot onto its page; until then only the memories are
    /// there.
    #[verifier::spinoff_prover]
    fn remap(&mut self)
        requires
            old(self).memories_ok(),
            forall|s: int|
                0 <= s < 4 ==> #[trigger] Self::page_fits(
                    old(self).pages[s],
                    old(self).rom.0.spec_len() as int,
                ),
        ensures
            final(self).wf(),
            final(self).pages == old(self).pages,
            final(self).mapper == old(self).mapper,
            final(self).same_contents(old(self)),
    {
        let mut i: u8 = 0;
        while i < 4
            invariant
                i <= 4,
                self.memories_ok(),
                self.pages == old(self).pages,
                self.mapper == old(self).mapper,
                self.same_contents(old(self)),
                self.rom.0.spec_len() == old(self).rom.0.spec_len(),
                forall|s: int|
                    0 <= s < 4 ==> #[trigger] Self::page_fits(
                        old(self).pages[s],
                        old(self).rom.0.spec_len() as int,
                    ),
                forall|s: int| 0 <= s < i ==> #[trigger] self.slot_ok(s) && self.slot_mapped(s),
            decreases 4 - i,
        {
            let page = self.pages[i as usize];
            let ghost before = *self;
            self.force_map_page(i, page);
            proof {
                assert(self.pages =~= before.pages);
                assert forall|s: int| 0 <= s < i + 1 implies #[trigger] self.slot_ok(s) && self.slot_mapped(s) by {
                    if s < i {
                        assert(before.slot_ok(s));
                        assert(self.kept_mapped(&before, i as int));
                    }
                }
            }
            i = i + 1;
        }
        assert(self.wf());
    }
}

proof fn lemma_round_page(n: int)
    requires
        0 < n <= 0x400000,
    ensures
        n % 0x4000 == 0 ==> round_page(n) == n,
        0 < n <= 0x1000 ==> round_page(n) == 0x1000,
        0x1000 < n <= 0x2000 ==> round_page(n) == 0x2000,
        0x3000 < n <= 0x4000 ==> round_page(n) == 0x4000,
        n <= round_page(n) <= n + 0xFFF,
{
}

impl SmsVirtualMemory {
    /// Copy `page` into new memory owned by `o`.
    fn allocate_copy(&mut self, page: &[u8], o: Ghost<Owner>) -> (r: PhysicalMemory<u8>)
        requires
            old(self).memories_ok(),
            page@.len() == 0x4000 || page@.len() == 0x2000,
            old(self).vm@.len() + page@.len() + 0x1000 <= usize::MAX,
        ensures
            final(self).grown_from(old(self)),
            final(self).main_cartridge_ram == old(self).main_cartridge_ram,
            final(self).half_cartridge_ram == old(self).half_cartridge_ram,
            final(self).rom_but_1 == old(self).rom_but_1,
            final(self).vm@.len() == old(self).vm@.len() + page@.len(),
            r.spec_start() == old(self).vm@.len(),
            r.spec_write(),
            final(self).memory_ok(r, page@.len() as int, o@),
            final(self).vm.contents(&r) == page@,
    {
        let r = self.vm.dup(page, false);
        proof {
            self.owners@ = self.owners@ + Seq::new(page@.len(), |i: int| o@);
            lemma_physical_frames(&self.vm, &r);
            assert(self.vm.contents(&r) =~= self.vm.contents(&r).subrange(0, page@.len() as int));
        }
        r
    }

    /// Copy in the main cartridge RAM of a state.
    #[verifier::spinoff_prover]
    fn load_main_ram(&mut self, ram: &crate::hardware::sms_memory::MainCartridgeRam)
        requires
            old(self).memories_ok(),
            old(self).main_cartridge_ram is Zero,
            old(self).vm@.len() + 0x10000 <= usize::MAX,
        ensures
            final(self).memories_ok(),
            final(self).grown_from(old(self)),
            final(self).half_cartridge_ram == old(self).half_cartridge_ram,
            final(self).rom_but_1 == old(self).rom_but_1,
            final(self).spec_rom() == old(self).spec_rom(),
            final(self).spec_system_ram() == old(self).spec_system_ram(),
            final(self).spec_half_ram() == old(self).spec_half_ram(),
            final(self).spec_main_ram(0) == match *ram {
                crate::hardware::sms_memory::MainCartridgeRam::Zero => zeros(0x4000),
                crate::hardware::sms_memory::MainCartridgeRam::One(x) => x@,
                crate::hardware::sms_memory::MainCartridgeRam::Two(x, _) => x@,
            },
            final(self).spec_main_ram(1) == match *ram {
                crate::hardware::sms_memory::MainCartridgeRam::Two(_, y) => y@,
                _ => zeros(0x4000),
            },
            final(self).spec_main_ram_len() == match *ram {
                crate::hardware::sms_memory::MainCartridgeRam::Zero => 0nat,
                crate::hardware::sms_memory::MainCartridgeRam::One(_) => 0x4000nat,
                crate::hardware::sms_memory::MainCartridgeRam::Two(_, _) => 0x8000nat,
            },
    {
        match ram {
            crate::hardware::sms_memory::MainCartridgeRam::Zero => {
                proof {
                    assert(self.vm@.subrange(0, old(self).vm@.len() as int) =~= old(self).vm@);
                    self.lemma_grown(old(self));
                }
            },
            crate::hardware::sms_memory::MainCartridgeRam::One(x) => {
                let a = self.allocate_copy(x.as_slice(), Ghost(Owner::MainRam(0)));
                self.main_cartridge_ram = MainCartridgeRam::One(a);
                proof {
                    self.lemma_grown(old(self));
                }
            },
            crate::hardware::sms_memory::MainCartridgeRam::Two(x, y) => {
                let a = self.allocate_copy(x.as_slice(), Ghost(Owner::MainRam(0)));
                self.main_cartridge_ram = MainCartridgeRam::One(a);
                proof {
                    self.lemma_grown(old(self));
                }
                let ghost mid = *self;
                let b = self.allocate_copy(y.as_slice(), Ghost(Owner::MainRam(1)));
                let mut tmp = MainCartridgeRam::Zero;
                std::mem::swap(&mut tmp, &mut self.main_cartridge_ram);
                if let MainCartridgeRam::One(a1) = tmp {
                    self.main_cartridge_ram = MainCartridgeRam::Two(a1, b);
                }
                proof {
                    self.lemma_grown(&mid);
                    assert(self.vm@.subrange(0, old(self).vm@.len() as int) =~= old(self).vm@) by {
                        assert(mid.vm@.subrange(0, old(self).vm@.len() as int) == old(self).vm@);
                        assert(self.vm@.subrange(0, mid.vm@.len() as int) == mid.vm@);
                    }
                }
            },
        }
    }

    /// Copy in the half page of cartridge RAM of a state.
    #[verifier::spinoff_prover]
    fn load_half_ram(&mut self, ram: &Option<Box<[u8; 0x2000]>>)
        requires
            old(self).memories_ok(),
            old(self).half_cartridge_ram is None,
            old(self).vm@.len() + 0x10000 <= usize::MAX,
        ensures
            final(self).memories_ok(),
            final(self).grown_from(old(self)),
            final(self).main_cartridge_ram == old(self).main_cartridge_ram,
            final(self).rom_but_1 == old(self).rom_but_1,
            final(self).spec_rom() == old(self).spec_rom(),
            final(self).spec_system_ram() == old(self).spec_system_ram(),
            final(self).spec_main_ram(0) == old(self).spec_main_ram(0),
            final(self).spec_main_ram(1) == old(self).spec_main_ram(1),
            final(self).spec_half_ram() == match *ram {
                Some(x) => x@,
                None => zeros(0x2000),
            },
            final(self).half_cartridge_ram is Some == ram is Some,
    {
        match ram {
            Some(x) => {
                let a = self.allocate_copy(x.as_slice(), Ghost(Owner::HalfRam));
                self.half_cartridge_ram = Some(a);
                proof {
                    self.lemma_grown(old(self));
                }
            },
            None => {
                proof {
                    assert(self.vm@.subrange(0, old(self).vm@.len() as int) =~= old(self).vm@);
                    self.lemma_grown(old(self));
                }
            },
        }
    }
}

/// Memories that lay within `before` hold the same elements after growth
/// at the end.
proof fn lemma_contents_prefix(before: &Main<u8>, after: &Main<u8>, m: &PhysicalMemory<u8>)
    requires
        before@.len() <= after@.len(),
        after@.subrange(0, before@.len() as int) == before@,
        before.holds(m),
        m.in_range(),
    ensures
        after.contents(m) == before.contents(m),
        after.holds(m),
{
    lemma_physical_frames(before, m);
    assert forall|i: int| 0 <= i < m.spec_len() implies #[trigger] after.contents(m)[i]
        == before.contents(m)[i] by {
        assert(after@.subrange(0, before@.len() as int)[m.spec_start() + i] == before@[m.spec_start() + i]);
    }
    assert(after.contents(m) =~= before.contents(m));
}

proof fn lemma_prefix_trans(a: Seq<u8>, b: Seq<u8>, c: Seq<u8>)
    requires
        a.len() <= b.len() <= c.len(),
        b.subrange(0, a.len() as int) == a,
        c.subrange(0, b.len() as int) == b,
    ensures
        c.subrange(0, a.len() as int) == a,
{
    assert forall|k: int| 0 <= k < a.len() implies #[trigger] c.subrange(0, a.len() as int)[k] == a[k] by {
        assert(c.subrange(0, b.len() as int)[k] == b[k]);
        assert(b.subrange(0, a.len() as int)[k] == a[k]);
    }
    assert(c.subrange(0, a.len() as int) =~= a);
}

impl SmsVirtualMemory {
    /// Load a state: its memories are copied in and each slot mapped onto
    /// its page, if `check_valid` finds nothing wrong with it.
    #[verifier::spinoff_prover]
    #[verifier::rlimit(40)]
    pub fn load(state: &SmsMemoryState) -> (r: Result<SmsVirtualMemory, SmsMemoryLoadError>)
        requires
            Self::loadable(state),
        ensures
            match state.spec_check_valid() {
                Some(e) => r == Err::<SmsVirtualMemory, SmsMemoryLoadError>(e),
                None => r is Ok && r->Ok_0.wf() && r->Ok_0.loaded_from(state),
            },
    {
        match state.check_valid() {
            Some(e) => {
                return Err(e);
            },
            None => {},
        }
        let rom_len = state.rom.len();
        let sys_len = state.system_ram_len;
        proof {
            lemma_round_page(rom_len as int);
            lemma_round_page(sys_len as int);
        }
        let mut vm: Main<u8> = Main::new();
        let ghost vm0 = vm;
        let rom = vm.dup(state.rom.as_slice(), false);
        let ghost vm1 = vm;
        let sys_slice = vstd::slice::slice_subrange(state.system_ram.as_slice(), 0, sys_len);
        let system_ram = vm.dup(sys_slice, false);
        let ghost vm2 = vm;
        let scrap = vm.allocate_physical(0x2000, true, false);
        let ghost vm3 = vm;
        let write_mem = vm.allocate_logical(0x10000, true, false);
        let ghost vm4 = vm;
        let read_mem = vm.allocate_logical(0x10000, false, false);
        let ghost owners = Seq::new(
            vm@.len(),
            |k: int|
                tag_in(
                    k,
                    rom,
                    Owner::Rom,
                    tag_in(k, system_ram, Owner::SystemRam, tag_in(k, scrap, Owner::Scrap, Owner::Other)),
                ),
        );
        proof {
            lemma_prefix_trans(vm2@, vm3@, vm4@);
            lemma_prefix_trans(vm2@, vm4@, vm@);
            lemma_prefix_trans(vm1@, vm2@, vm@);
            lemma_contents_prefix(&vm1, &vm, &rom);
            lemma_contents_prefix(&vm2, &vm, &system_ram);
            lemma_prefix_trans(vm3@, vm4@, vm@);
            lemma_contents_prefix(&vm3, &vm, &scrap);
            super::lemma_holds_grow(&vm4, &vm, &write_mem);
            assert(vm.contents(&rom) =~= state.rom@);
        }
        let mut m = SmsVirtualMemory {
            vm,
            owners: Ghost(owners),
            rom: Rom(rom),
            system_ram,
            main_cartridge_ram: MainCartridgeRam::Zero,
            half_cartridge_ram: None,
            scrap,
            rom_but_1: vec![None, None, None, None],
            pages: state.pages,
            mapper: state.mapper,
            write_mem,
            read_mem,
        };
        proof {
            assert(m.owned(m.rom.0, Owner::Rom));
            assert(m.owned(m.system_ram, Owner::SystemRam));
            assert(m.owned(m.scrap, Owner::Scrap));
            assert(m.memories_ok());
            assert(m.spec_system_ram() =~= state.system_ram@.subrange(0, sys_len as int) + zeros(
                (round_page(sys_len as int) - sys_len) as nat,
            )) by {
                assert(vm2.contents(&system_ram).subrange(0, sys_len as int) == sys_slice@);
            }
        }
        m.load_main_ram(&state.main_cartridge_ram);
        m.load_half_ram(&state.half_cartridge_ram);
        let ghost loaded = m;
        m.remap();
        proof {
            assert(crate::hardware::sms_memory::zero_page()@ =~= zeros(0x4000));
            assert(crate::hardware::sms_memory::zero_half_page()@ =~= zeros(0x2000));
            assert(m.spec_rom() == state.rom@);
            assert(m.spec_system_ram() == state.system_ram@.subrange(0, sys_len as int) + zeros(
                (round_page(sys_len as int) - sys_len) as nat,
            ));
            assert(m.spec_main_ram(0) == state.main_page(0)@);
            assert(m.spec_main_ram(1) == state.main_page(1)@);
            assert(m.spec_half_ram() == state.half_page()@);
            assert(m.spec_pages() == state.pages);
            assert(m.spec_mapper() == state.mapper);
            assert(m.loaded_from(state));
        }
        Ok(m)
    }
}

/// A copy of a 16 KiB memory.
fn copy_page(vm: &Main<u8>, x: &PhysicalMemory<u8>) -> (r: Box<[u8; 0x4000]>)
    requires
        vm.holds(x),
        x.spec_len() == 0x4000,
    ensures
        r@ == vm.contents(x),
{
    proof {
        use_type_invariant(x);
        lemma_physical_frames(vm, x);
    }
    let mut a = [0u8; 0x4000];
    let mut i: usize = 0;
    while i < 0x4000
        invariant
            i <= 0x4000,
            vm.holds(x),
            x.spec_len() == 0x4000,
            vm.contents(x).len() == 0x4000,
            forall|k: int| 0 <= k < 0x4000 ==> #[trigger] vm.spec_get(x, k) == vm.contents(x)[k],
            forall|k: int| 0 <= k < i ==> #[trigger] a@[k] == vm.contents(x)[k],
        decreases 0x4000 - i,
    {
        a[i] = vm.get(x, i);
        i = i + 1;
    }
    assert(a@ =~= vm.contents(x));
    Box::new(a)
}

/// A copy of an 8 KiB memory.
fn copy_half_page(vm: &Main<u8>, x: &PhysicalMemory<u8>) -> (r: Box<[u8; 0x2000]>)
    requires
        vm.holds(x),
        x.spec_len() == 0x2000,
    ensures
        r@ == vm.contents(x),
{
    proof {
        use_type_invariant(x);
        lemma_physical_frames(vm, x);
    }
    let mut a = [0u8; 0x2000];
    let mut i: usize = 0;
    while i < 0x2000
        invariant
            i <= 0x2000,
            vm.holds(x),
            x.spec_len() == 0x2000,
            vm.contents(x).len() == 0x2000,
            forall|k: int| 0 <= k < 0x2000 ==> #[trigger] vm.spec_get(x, k) == vm.contents(x)[k],
            forall|k: int| 0 <= k < i ==> #[trigger] a@[k] == vm.contents(x)[k],
        decreases 0x2000 - i,
    {
        a[i] = vm.get(x, i);
        i = i + 1;
    }
    assert(a@ =~= vm.contents(x));
    Box::new(a)
}

/// A system RAM buffer holding the bytes of `x` first, then zeros.
fn copy_system_ram(vm: &Main<u8>, x: &PhysicalMemory<u8>) -> (r: Box<[u8; 0x4000]>)
    requires
        vm.holds(x),
        x.spec_len() <= 0x4000,
    ensures
        r@.subrange(0, x.spec_len() as int) == vm.contents(x),
        forall|k: int| x.spec_len() <= k < 0x4000 ==> #[trigger] r@[k] == 0,
{
    proof {
        use_type_invariant(x);
        lemma_physical_frames(vm, x);
    }
    let len = x.len();
    let mut a = [0u8; 0x4000];
    let mut i: usize = 0;
    while i < len
        invariant
            i <= len,
            len == x.spec_len(),
            len <= 0x4000,
            vm.holds(x),
            vm.contents(x).len() == len,
            forall|k: int| 0 <= k < len ==> #[trigger] vm.spec_get(x, k) == vm.contents(x)[k],
            forall|k: int| 0 <= k < i ==> #[trigger] a@[k] == vm.contents(x)[k],
            forall|k: int| len <= k < 0x4000 ==> #[trigger] a@[k] == 0,
        decreases len - i,
    {
        a[i] = vm.get(x, i);
        i = i + 1;
    }
    assert(a@.subrange(0, len as int) =~= vm.contents(x));
    Box::new(a)
}

impl SmsVirtualMemory {
    /// Does `state` hold what this memory holds?
    pub open spec fn state_of(&self, state: &SmsMemoryState) -> bool {
        &&& state.rom@ == self.spec_rom()
        &&& state.system_ram_len == self.spec_system_ram().len()
        &&& state.system_ram@.subrange(0, state.system_ram_len as int) == self.spec_system_ram()
        &&& state.main_page(0)@ == self.spec_main_ram(0)
        &&& state.main_page(1)@ == self.spec_main_ram(1)
        &&& self.spec_main_ram_len() == match state.main_cartridge_ram {
            crate::hardware::sms_memory::MainCartridgeRam::Zero => 0nat,
            crate::hardware::sms_memory::MainCartridgeRam::One(_) => 0x4000nat,
            crate::hardware::sms_memory::MainCartridgeRam::Two(_, _) => 0x8000nat,
        }
        &&& state.half_page()@ == self.spec_half_ram()
        &&& (state.half_cartridge_ram is Some) == self.spec_has_half_ram()
        &&& state.pages == self.spec_pages()
        &&& state.mapper == self.spec_mapper()
        &&& state.wf()
    }

    /// The memory's state, as plain buffers.
    #[verifier::spinoff_prover]
    pub fn state(&self) -> (r: SmsMemoryState)
        requires
            self.wf(),
        ensures
            self.state_of(&r),
    {
        proof {
            self.lemma_rom_len();
        }
        let rom = self.vm.create_slice(&self.rom.0);
        let system_ram = copy_system_ram(&self.vm, &self.system_ram);
        let main_cartridge_ram = match &self.main_cartridge_ram {
            MainCartridgeRam::Zero => crate::hardware::sms_memory::MainCartridgeRam::Zero,
            MainCartridgeRam::One(x) => crate::hardware::sms_memory::MainCartridgeRam::One(
                copy_page(&self.vm, x),
            ),
            MainCartridgeRam::Two(x, y) => crate::hardware::sms_memory::MainCartridgeRam::Two(
                copy_page(&self.vm, x),
                copy_page(&self.vm, y),
            ),
        };
        let half_cartridge_ram = match &self.half_cartridge_ram {
            Some(x) => Some(copy_half_page(&self.vm, x)),
            None => None,
        };
        let r = SmsMemoryState {
            rom,
            system_ram,
            system_ram_len: self.system_ram.len(),
            main_cartridge_ram,
            half_cartridge_ram,
            pages: self.pages,
            mapper: self.mapper,
        };
        proof {
            assert(crate::hardware::sms_memory::zero_page()@ =~= zeros(0x4000));
            assert(crate::hardware::sms_memory::zero_half_page()@ =~= zeros(0x2000));
        }
        r
    }
}

/// Saving a memory's state and loading it back gives a memory that holds
/// the same bytes, shows the same pages with the same mapper, and so reads
/// the same at every address.
pub proof fn lemma_state_load(m: &SmsVirtualMemory, state: &SmsMemoryState, back: &SmsVirtualMemory)
    requires
        m.wf(),
        m.state_of(state),
        back.loaded_from(state),
    ensures
        SmsVirtualMemory::loadable(state),
        state.spec_check_valid() is None,
        back.same_contents(m),
        back.spec_pages() == m.spec_pages(),
        back.spec_mapper() == m.spec_mapper(),
        forall|address: u16| #[trigger] back.spec_read(address) == m.spec_read(address),
{
    m.lemma_rom_len();
    let len = state.rom@.len() as int;
    let found = len / 0x4000;
    assert forall|s: int| 0 <= s < 4 implies #[trigger] SmsVirtualMemory::page_fits(
        state.pages[s],
        len,
    ) && !crate::hardware::sms_memory::rom_page_invalid(state.pages[s], found) by {
        assert(m.slot_ok(s));
        match state.pages[s] {
            MemoryPage::Rom(p) => {
                assert((p + 1) * 0x4000 <= len);
            },
            MemoryPage::RomButFirstKiB(p) => {
                assert((p + 1) * 0x4000 <= len);
            },
            _ => {},
        }
    }
    assert(SmsVirtualMemory::page_fits(state.pages[0], len));
    assert(SmsVirtualMemory::page_fits(state.pages[1], len));
    assert(SmsVirtualMemory::page_fits(state.pages[2], len));
    assert(SmsVirtualMemory::page_fits(state.pages[3], len));
    let sl = state.system_ram_len as int;
    lemma_round_page(sl);
    assert(back.spec_system_ram() =~= m.spec_system_ram());
    assert forall|address: u16| #[trigger] back.spec_read(address) == m.spec_read(address) by {
    }
}

impl SmsVirtualMemory {
    /// Byte `index` of ROM.
    pub fn rom_read(&self, index: usize) -> (r: u8)
        requires
            self.wf(),
            index < self.spec_rom().len(),
        ensures
            r == self.spec_rom()[index as int],
    {
        proof {
            self.lemma_rom_len();
            lemma_physical_frames(&self.vm, &self.rom.0);
        }
        self.vm.get(&self.rom.0, index)
    }

    /// How much main cartridge RAM is allocated, in bytes.
    pub fn main_cartridge_ram_len(&self) -> (r: usize)
        ensures
            r == self.spec_main_ram_len(),
    {
        match self.main_cartridge_ram {
            MainCartridgeRam::Zero => 0,
            MainCartridgeRam::One(_) => 0x4000,
            MainCartridgeRam::Two(_, _) => 0x8000,
        }
    }

    /// Byte `index` of main cartridge RAM.
    pub fn main_cartridge_ram_read(&self, index: usize) -> (r: u8)
        requires
            self.wf(),
            index < self.spec_main_ram_len(),
        ensures
            r == (if index < 0x4000 {
                self.spec_main_ram(0)[index as int]
            } else {
                self.spec_main_ram(1)[index - 0x4000]
            }),
    {
        match &self.main_cartridge_ram {
            MainCartridgeRam::One(x) => {
                proof {
                    lemma_physical_frames(&self.vm, x);
                }
                self.vm.get(x, index)
            },
            MainCartridgeRam::Two(x, y) => {
                proof {
                    lemma_physical_frames(&self.vm, x);
                    lemma_physical_frames(&self.vm, y);
                }
                if index < 0x4000 {
                    self.vm.get(x, index)
                } else {
                    self.vm.get(y, index - 0x4000)
                }
            },
            MainCartridgeRam::Zero => 0,
        }
    }

    /// How much half page cartridge RAM is allocated, in bytes.
    pub fn half_cartridge_ram_len(&self) -> (r: usize)
        ensures
            r == (if self.spec_has_half_ram() {
                0x2000usize
            } else {
                0usize
            }),
    {
        match self.half_cartridge_ram {
            Some(_) => 0x2000,
            None => 0,
        }
    }

    /// Byte `index` of the half page of cartridge RAM.
    pub fn half_cartridge_ram_read(&self, index: usize) -> (r: u8)
        requires
            self.wf(),
            self.spec_has_half_ram(),
            index < 0x2000,
        ensures
            r == self.spec_half_ram()[index as int],
    {
        match &self.half_cartridge_ram {
            Some(x) => {
                proof {
                    lemma_physical_frames(&self.vm, x);
                }
                self.vm.get(x, index)
            },
            None => 0,
        }
    }

    /// How much system RAM there is, in bytes.
    pub fn system_ram_len(&self) -> (r: usize)
        requires
            self.wf(),
        ensures
            r == self.spec_system_ram().len(),
    {
        proof {
            self.lemma_rom_len();
        }
        self.system_ram.len()
    }

    /// Byte `index` of system RAM.
    pub fn system_ram_read(&self, index: usize) -> (r: u8)
        requires
            self.wf(),
            index < self.spec_system_ram().len(),
        ensures
            r == self.spec_system_ram()[index as int],
    {
        proof {
            lemma_physical_frames(&self.vm, &self.system_ram);
        }
        self.vm.get(&self.system_ram, index)
    }

    /// Set byte `index` of system RAM.
    #[verifier::spinoff_prover]
    pub fn system_ram_write(&mut self, index: usize, value: u8)
        requires
            old(self).wf(),
            index < old(self).spec_system_ram().len(),
        ensures
            final(self).wf(),
            final(self).spec_pages() == old(self).spec_pages(),
            final(self).spec_mapper() == old(self).spec_mapper(),
            final(self).spec_system_ram() == old(self).spec_system_ram().update(index as int, value),
            final(self).spec_rom() == old(self).spec_rom(),
            final(self).spec_main_ram(0) == old(self).spec_main_ram(0),
            final(self).spec_main_ram(1) == old(self).spec_main_ram(1),
            final(self).spec_half_ram() == old(self).spec_half_ram(),
    {
        proof {
            lemma_physical_frames(&self.vm, &self.system_ram);
            assert(self.owners@[self.system_ram.spec_start() + index] == Owner::SystemRam);
        }
        self.vm.set(&self.system_ram, index, value);
        proof {
            let pos = old(self).system_ram.spec_start() + index;
            self.lemma_store_kept(old(self), pos, value, Owner::SystemRam);
            self.lemma_contents_update(old(self), self.system_ram, index as int, value);
            self.lemma_other_contents(old(self), Owner::SystemRam);
        }
    }

    /// Set byte `index` of main cartridge RAM.
    #[verifier::spinoff_prover]
    pub fn main_cartridge_ram_write(&mut self, index: usize, value: u8)
        requires
            old(self).wf(),
            index < old(self).spec_main_ram_len(),
        ensures
            final(self).wf(),
            final(self).spec_pages() == old(self).spec_pages(),
            final(self).spec_mapper() == old(self).spec_mapper(),
            final(self).spec_main_ram(0) == if index < 0x4000 {
                old(self).spec_main_ram(0).update(index as int, value)
            } else {
                old(self).spec_main_ram(0)
            },
            final(self).spec_main_ram(1) == if index < 0x4000 {
                old(self).spec_main_ram(1)
            } else {
                old(self).spec_main_ram(1).update(index - 0x4000, value)
            },
            final(self).spec_rom() == old(self).spec_rom(),
            final(self).spec_system_ram() == old(self).spec_system_ram(),
            final(self).spec_half_ram() == old(self).spec_half_ram(),
    {
        match &self.main_cartridge_ram {
            MainCartridgeRam::One(x) => {
                proof {
                    lemma_physical_frames(&self.vm, x);
                    assert(self.owners@[x.spec_start() + index] == Owner::MainRam(0));
                }
                self.vm.set(x, index, value);
                proof {
                    self.lemma_store_kept(old(self), x.spec_start() + index, value, Owner::MainRam(0));
                    self.lemma_contents_update(old(self), *x, index as int, value);
                    self.lemma_other_contents(old(self), Owner::MainRam(0));
                }
            },
            MainCartridgeRam::Two(x, y) => {
                proof {
                    lemma_physical_frames(&self.vm, x);
                    lemma_physical_frames(&self.vm, y);
                }
                if index < 0x4000 {
                    proof {
                        assert(self.owners@[x.spec_start() + index] == Owner::MainRam(0));
                    }
                    self.vm.set(x, index, value);
                    proof {
                        self.lemma_store_kept(old(self), x.spec_start() + index, value, Owner::MainRam(0));
                        self.lemma_contents_update(old(self), *x, index as int, value);
                        self.lemma_other_contents(old(self), Owner::MainRam(0));
                    }
                } else {
                    proof {
                        assert(self.owners@[y.spec_start() + (index - 0x4000)] == Owner::MainRam(1));
                    }
                    self.vm.set(y, index - 0x4000, value);
                    proof {
                        self.lemma_store_kept(old(self), y.spec_start() + (index - 0x4000), value, Owner::MainRam(1));
                        self.lemma_contents_update(old(self), *y, index - 0x4000, value);
                        self.lemma_other_contents(old(self), Owner::MainRam(1));
                    }
                }
            },
            MainCartridgeRam::Zero => {},
        }
    }

    /// Set byte `index` of the half page of cartridge RAM.
    #[verifier::spinoff_prover]
    pub fn half_cartridge_ram_write(&mut self, index: usize, value: u8)
        requires
            old(self).wf(),
            old(self).spec_has_half_ram(),
            index < 0x2000,
        ensures
            final(self).wf(),
            final(self).spec_pages() == old(self).spec_pages(),
            final(self).spec_mapper() == old(self).spec_mapper(),
            final(self).spec_half_ram() == old(self).spec_half_ram().update(index as int, value),
            final(self).spec_rom() == old(self).spec_rom(),
            final(self).spec_system_ram() == old(self).spec_system_ram(),
            final(self).spec_main_ram(0) == old(self).spec_main_ram(0),
            final(self).spec_main_ram(1) == old(self).spec_main_ram(1),
    {
        match &self.half_cartridge_ram {
            Some(x) => {
                proof {
                    lemma_physical_frames(&self.vm, x);
                    assert(self.owners@[x.spec_start() + index] == Owner::HalfRam);
                }
                self.vm.set(x, index, value);
                proof {
                    self.lemma_store_kept(old(self), x.spec_start() + index, value, Owner::HalfRam);
                    self.lemma_contents_update(old(self), *x, index as int, value);
                    self.lemma_other_contents(old(self), Owner::HalfRam);
                }
            },
            None => {},
        }
    }

    /// Give the system `kib` KiB of RAM, zeroed; the memory holds at most a
    /// page of it.
    #[verifier::spinoff_prover]
    pub fn set_system_ram_kib(&mut self, kib: usize)
        requires
            old(self).wf(),
            4 <= kib,
            kib * 0x400 <= usize::MAX,
            old(self).spec_arena_len() + 0x20000 <= usize::MAX,
        ensures
            final(self).wf(),
            final(self).spec_pages() == old(self).spec_pages(),
            final(self).spec_mapper() == old(self).spec_mapper(),
            final(self).spec_system_ram() == zeros(0x1000),
            final(self).spec_rom() == old(self).spec_rom(),
            final(self).spec_main_ram(0) == old(self).spec_main_ram(0),
            final(self).spec_main_ram(1) == old(self).spec_main_ram(1),
            final(self).spec_half_ram() == old(self).spec_half_ram(),
    {
        let size = 0x400 * kib;
        let len = if size < super::PAGE_SIZE {
            size
        } else {
            super::PAGE_SIZE
        };
        let x = self.allocate(len, Ghost(Owner::SystemRam));
        let ghost mid = *self;
        proof {
            mid.lemma_grown(old(self));
        }
        self.system_ram = x;
        proof {
            assert(self.memories_ok());
            assert forall|s: int|
                0 <= s < 4 implies #[trigger] Self::page_fits(self.pages[s], self.rom.0.spec_len() as int) by {
                assert(old(self).slot_ok(s));
            }
        }
        self.remap();
    }
}

impl SmsVirtualMemory {
    /// Does this memory hold what the plain memory `state` holds, with the
    /// same pages and mapper?
    pub open spec fn agrees(&self, state: &SmsMemoryState) -> bool {
        &&& state.rom@ == self.spec_rom()
        &&& state.system_ram_len == self.spec_system_ram().len()
        &&& state.system_ram@.subrange(0, state.system_ram_len as int) == self.spec_system_ram()
        &&& state.main_page(0)@ == self.spec_main_ram(0)
        &&& state.main_page(1)@ == self.spec_main_ram(1)
        &&& state.half_page()@ == self.spec_half_ram()
        &&& state.pages == self.spec_pages()
        &&& state.mapper == self.spec_mapper()
        &&& state.wf()
    }
}

/// The virtual memory reads like the plain memory that holds the same
/// bytes: at every address, a read of one gives what a read of the other
/// gives.
pub proof fn lemma_agree_read(m: &SmsVirtualMemory, state: &SmsMemoryState)
    requires
        m.wf(),
        m.agrees(state),
    ensures
        forall|address: u16| #[trigger] m.spec_read(address) == state.spec_read(address),
{
    m.lemma_rom_len();
    assert forall|address: u16| #[trigger] m.spec_read(address) == state.spec_read(address) by {
        let slot = address as int / 0x4000;
        let o = address as int % 0x4000;
        assert(m.slot_ok(slot));
        let len = state.system_ram_len as int;
        vstd::arithmetic::div_mod::lemma_mod_bound(o, len);
        assert(state.system_ram@.subrange(0, len)[o % len] == state.system_ram@[o % len]);
    }
}

/// A write to the virtual memory does what a write to the plain memory
/// does: if they held the same before, they hold the same after.
pub proof fn lemma_agree_write(
    before: &SmsVirtualMemory,
    state: &SmsMemoryState,
    after: &SmsVirtualMemory,
    address: u16,
    value: u8,
)
    requires
        before.wf(),
        before.agrees(state),
        after.wf(),
        after.spec_mapper() == before.spec_mapper(),
        after.spec_pages() == spec_register_pages(
            before.spec_mapper(),
            before.rom_pages_u8(),
            before.spec_pages(),
            address,
            value,
        ),
        after.stored_from(before, address, value),
    ensures
        after.agrees(&state.spec_write(address, value)),
{
    before.lemma_rom_len();
    crate::hardware::sms_memory::lemma_register_pages(*state, address, value);
    let s1 = state.spec_register_check(address, value);
    let slot = address as int / 0x4000;
    let o = address as int % 0x4000;
    let s2 = s1.store(s1.pages[slot], o, value);
    assert(s2 == state.spec_write(address, value));
    assert(crate::hardware::sms_memory::zero_page()@ =~= zeros(0x4000));
    assert(crate::hardware::sms_memory::zero_half_page()@ =~= zeros(0x2000));
    let len = state.system_ram_len as int;
    vstd::arithmetic::div_mod::lemma_mod_bound(o, len);
    assert(s2.system_ram@.subrange(0, len) =~= after.spec_system_ram());
    assert(s2.main_page(0)@ =~= after.spec_main_ram(0));
    assert(s2.main_page(1)@ =~= after.spec_main_ram(1));
    assert(s2.half_page()@ =~= after.spec_half_ram());
}

/// A read gives back what a write stored, wherever the write went to RAM:
/// system RAM, a page of cartridge RAM, or the RAM half of a half page.
pub proof fn lemma_read_after_write(
    before: &SmsVirtualMemory,
    after: &SmsVirtualMemory,
    address: u16,
    value: u8,
)
    requires
        before.wf(),
        after.wf(),
        after.stored_from(before, address, value),
        ({
            let page = after.spec_pages()[address as int / 0x4000];
            page is SystemRam || page is FirstCartridgeRam || page is SecondCartridgeRam || (
            page is HalfCartridgeRam && address as int % 0x4000 >= 0x2000)
        }),
    ensures
        after.spec_read(address) == value,
{
    before.lemma_rom_len();
    after.lemma_rom_len();
    let o = address as int % 0x4000;
    let len = before.spec_system_ram().len() as int;
    vstd::arithmetic::div_mod::lemma_mod_bound(o, len);
    assert(after.slot_ok(address as int / 0x4000));
    before.lemma_main_lens();
}

impl SmsVirtualMemory {
    /// Cartridge RAM pages and the half page are whole pages.
    proof fn lemma_main_lens(&self)
        requires
            self.memories_ok_but_frames(),
        ensures
            self.spec_main_ram(0).len() == 0x4000,
            self.spec_main_ram(1).len() == 0x4000,
            self.spec_half_ram().len() == 0x2000,
    {
        match self.main_cartridge_ram {
            MainCartridgeRam::One(x) => {
                lemma_physical_frames(&self.vm, &x);
            },
            MainCartridgeRam::Two(x, y) => {
                lemma_physical_frames(&self.vm, &x);
                lemma_physical_frames(&self.vm, &y);
            },
            MainCartridgeRam::Zero => {},
        }
        match self.half_cartridge_ram {
            Some(x) => {
                lemma_physical_frames(&self.vm, &x);
            },
            None => {},
        }
    }
}

} // verus!
