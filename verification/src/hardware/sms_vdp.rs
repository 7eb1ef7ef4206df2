//! The video display processor (VDP) of the Sega Master System, and its
//! hardware interface: the data and control ports, and the V and H counters.
use vstd::prelude::*;
use vstd::array::spec_array_update;

pub mod debug;
pub mod graphics;

verus! {

/// Which console's VDP this is.
#[derive(Clone, Copy, Debug, PartialEq, Eq, Structural)]
pub enum Kind {
    Sg,
    Sms,
    Sms2,
    Gg,
}

#[derive(Clone, Copy, Debug, PartialEq, Eq, Structural)]
pub enum TvSystem {
    Ntsc,
    Pal,
}

/// How many lines of the screen are active: 192, 224 or 240.
#[derive(Clone, Copy, Debug, PartialEq, Eq, Structural)]
pub enum Resolution {
    Low,
    Medium,
    High,
}

/// The status flag set when too many sprites are on a line.
pub const SPRITE_OVERFLOW_FLAG: u8 = 0x40;

/// The status flag set when two sprites collide.
pub const SPRITE_COLLISION_FLAG: u8 = 0x20;

/// The status flag set at the end of the active display (frame interrupt).
pub const FRAME_INTERRUPT_FLAG: u8 = 0x80;

/// The state of the VDP.
///
/// `code_address` holds the 2 bit code in its top bits and the 14 bit VRAM
/// address below them.
#[derive(Clone, Copy, Debug, PartialEq, Eq)]
pub struct SmsVdpState {
    pub cycles: u64,
    pub kind: Kind,
    pub tv_system: TvSystem,
    pub vram: [u8; 0x4000],
    pub cram: [u16; 32],
    pub registers: [u8; 11],
    pub code_address: u16,
    pub data_buffer: u8,
    pub control_flag: bool,
    pub status_flags: u8,
    pub line_interrupt_pending: bool,
    /// Lines left before the next line interrupt.
    pub line_counter: u8,
    pub cram_latch: u8,
    pub v: u16,
    pub h: u16,
}

impl SmsVdpState {
    /// The 2 bit code of the last control word.
    pub open spec fn spec_code(self) -> u16 {
        self.code_address / 0x4000
    }

    /// The 14 bit VRAM address.
    pub open spec fn spec_address(self) -> u16 {
        self.code_address % 0x4000
    }

    /// The state with the address set to `a`, wrapped to 14 bits, and the
    /// code kept.
    pub open spec fn with_address(self, a: int) -> Self {
        SmsVdpState {
            code_address: (self.spec_code() * 0x4000 + a % 0x4000) as u16,
            ..self
        }
    }

    /// Is bit `b` of register `r` set?
    pub open spec fn reg_bit(self, r: int, b: u8) -> bool {
        self.registers@[r] & b != 0
    }

    pub open spec fn spec_m1(self) -> bool {
        self.reg_bit(1, 0x10)
    }

    pub open spec fn spec_m2(self) -> bool {
        self.reg_bit(0, 0x02)
    }

    pub open spec fn spec_m3(self) -> bool {
        self.reg_bit(1, 0x08)
    }

    pub open spec fn spec_m4(self) -> bool {
        self.reg_bit(0, 0x04)
    }

    /// The active resolution: medium (224 lines) with M1 and M2 set, high
    /// (240 lines) with M2 and M3 set, low (192 lines) otherwise.
    pub open spec fn spec_resolution(self) -> Resolution {
        if self.spec_m2() && self.spec_m1() {
            Resolution::Medium
        } else if self.spec_m2() && self.spec_m3() {
            Resolution::High
        } else {
            Resolution::Low
        }
    }

    /// Is the VDP asking the Z80 for an interrupt: a frame interrupt with
    /// frame interrupts enabled, or a line interrupt with line interrupts
    /// enabled?
    pub open spec fn spec_requesting_interrupt(self) -> bool {
        (self.status_flags & FRAME_INTERRUPT_FLAG != 0 && self.reg_bit(1, 0x20)) || (
        self.line_interrupt_pending && self.reg_bit(0, 0x10))
    }

    pub fn new(kind: Kind, tv_system: TvSystem) -> (r: SmsVdpState)
        ensures
            r.kind == kind,
            r.tv_system == tv_system,
            r.cycles == 0,
            r.code_address == 0,
            r.data_buffer == 0,
            !r.control_flag,
            r.status_flags == 0,
            !r.line_interrupt_pending,
            r.line_counter == 0,
            r.v == 0,
            r.h == 0,
            r.cram_latch == 0,
            forall|i: int| 0 <= i < 11 ==> r.registers@[i] == 0,
            forall|i: int| 0 <= i < 0x4000 ==> r.vram@[i] == 0,
            forall|i: int| 0 <= i < 32 ==> r.cram@[i] == 0,
    {
        SmsVdpState {
            cycles: 0,
            kind,
            tv_system,
            vram: [0u8; 0x4000],
            cram: [0u16; 32],
            registers: [0u8; 11],
            code_address: 0,
            data_buffer: 0,
            control_flag: false,
            status_flags: 0,
            line_interrupt_pending: false,
            line_counter: 0,
            cram_latch: 0,
            v: 0,
            h: 0,
        }
    }

    pub fn code(&self) -> (r: u16)
        ensures
            r == self.spec_code(),
    {
        self.code_address / 0x4000
    }

    pub fn address(&self) -> (r: u16)
        ensures
            r == self.spec_address(),
    {
        self.code_address % 0x4000
    }

    fn set_address(&mut self, a: u16)
        ensures
            *final(self) == old(self).with_address(a as int),
    {
        self.code_address = (self.code_address / 0x4000) * 0x4000 + a % 0x4000;
    }

    pub fn register(&self, r: usize) -> (x: u8)
        requires
            r < 11,
        ensures
            x == self.registers@[r as int],
    {
        self.registers[r]
    }

    pub fn m1(&self) -> (r: bool)
        ensures
            r == self.spec_m1(),
    {
        self.registers[1] & 0x10 != 0
    }

    pub fn m2(&self) -> (r: bool)
        ensures
            r == self.spec_m2(),
    {
        self.registers[0] & 0x02 != 0
    }

    pub fn m3(&self) -> (r: bool)
        ensures
            r == self.spec_m3(),
    {
        self.registers[1] & 0x08 != 0
    }

    pub fn m4(&self) -> (r: bool)
        ensures
            r == self.spec_m4(),
    {
        self.registers[0] & 0x04 != 0
    }

    pub fn resolution(&self) -> (r: Resolution)
        ensures
            r == self.spec_resolution(),
    {
        if self.m2() && self.m1() {
            Resolution::Medium
        } else if self.m2() && self.m3() {
            Resolution::High
        } else {
            Resolution::Low
        }
    }

    pub fn requesting_interrupt(&self) -> (r: bool)
        ensures
            r == self.spec_requesting_interrupt(),
    {
        (self.status_flags & FRAME_INTERRUPT_FLAG != 0 && self.registers[1] & 0x20 != 0) || (
        self.line_interrupt_pending && self.registers[0] & 0x10 != 0)
    }

    /// The state after a byte is written to the data port: the byte goes to
    /// CRAM if the code is 3 (on the Game Gear a CRAM entry is two bytes,
    /// latched at even addresses), to VRAM otherwise; the address advances
    /// and the control flag is cleared.
    pub open spec fn spec_write_data(self, x: u8) -> Self {
        let code = self.spec_code();
        let addr = self.spec_address();
        let s = SmsVdpState { data_buffer: x, ..self };
        let s1 = if code == 3 && self.kind == Kind::Gg {
            if addr % 2 == 0 {
                SmsVdpState { cram_latch: x, ..s }
            } else {
                SmsVdpState {
                    cram: spec_array_update(
                        s.cram,
                        (addr / 2) as int % 32,
                        (s.cram_latch as int + x as int * 256) as u16,
                    ),
                    ..s
                }
            }
        } else if code == 3 {
            SmsVdpState { cram: spec_array_update(s.cram, addr as int % 32, x as u16), ..s }
        } else {
            SmsVdpState { vram: spec_array_update(s.vram, addr as int, x), ..s }
        };
        SmsVdpState { control_flag: false, ..s1.with_address(addr + 1) }
    }

    /// Write a byte to the data port.
    pub fn write_data(&mut self, x: u8)
        ensures
            *final(self) == old(self).spec_write_data(x),
    {
        let code = self.code();
        let addr = self.address();
        self.data_buffer = x;
        if code == 3 && matches!(self.kind, Kind::Gg) {
            if addr % 2 == 0 {
                self.cram_latch = x;
            } else {
                let val = self.cram_latch as u16 + (x as u16) * 256;
                self.cram[((addr / 2) % 32) as usize] = val;
            }
        } else if code == 3 {
            self.cram[(addr % 32) as usize] = x as u16;
        } else {
            self.vram[addr as usize] = x;
        }
        self.set_address(addr + 1);
        self.control_flag = false;
        assert(self.cram =~= old(self).spec_write_data(x).cram);
        assert(self.vram =~= old(self).spec_write_data(x).vram);
    }

    /// The state after a read of the data port, which returns the old data
    /// buffer: the byte at the address goes to the buffer, the address
    /// advances, and the control flag is cleared.
    pub open spec fn spec_read_data(self) -> Self {
        let addr = self.spec_address();
        SmsVdpState {
            data_buffer: self.vram@[addr as int],
            control_flag: false,
            ..self.with_address(addr + 1)
        }
    }

    /// Read a byte from the data port.
    pub fn read_data(&mut self) -> (r: u8)
        ensures
            r == old(self).data_buffer,
            *final(self) == old(self).spec_read_data(),
    {
        let current_buffer = self.data_buffer;
        let addr = self.code_address % 0x4000;
        let new_value = self.vram[addr as usize];
        self.set_address(addr + 1);
        self.data_buffer = new_value;
        self.control_flag = false;
        current_buffer
    }

    /// The state after a byte is written to the control port. The first byte
    /// of a pair is the low byte of the code and address; the second is the
    /// high byte, after which code 0 reads VRAM into the data buffer and code
    /// 2 writes the first byte to the register the second names.
    pub open spec fn spec_write_control(self, x: u8) -> Self {
        if self.control_flag {
            let low_byte = self.code_address % 256;
            let s = SmsVdpState {
                control_flag: false,
                code_address: (low_byte + x as int * 256) as u16,
                ..self
            };
            let code = s.spec_code();
            let addr = s.spec_address();
            if code == 0 {
                SmsVdpState { data_buffer: s.vram@[addr as int], ..s.with_address(addr + 1) }
            } else if code == 2 && x % 16 < 11 {
                SmsVdpState {
                    registers: spec_array_update(s.registers, (x % 16) as int, low_byte as u8),
                    ..s
                }
            } else {
                s
            }
        } else {
            SmsVdpState {
                control_flag: true,
                code_address: ((self.code_address / 256) * 256 + x as int) as u16,
                ..self
            }
        }
    }

    /// Write a byte to the control port.
    pub fn write_control(&mut self, x: u8)
        ensures
            *final(self) == old(self).spec_write_control(x),
    {
        if self.control_flag {
            self.control_flag = false;
            let low_byte = self.code_address % 256;
            self.code_address = low_byte + (x as u16) * 256;
            let code = self.code();
            let addr = self.address();
            if code == 0 {
                let val = self.vram[addr as usize];
                self.data_buffer = val;
                self.set_address(addr + 1);
            } else if code == 2 {
                let which_reg = x % 16;
                if which_reg < 11 {
                    self.registers[which_reg as usize] = low_byte as u8;
                    assert(self.registers =~= old(self).spec_write_control(x).registers);
                }
            }
        } else {
            self.control_flag = true;
            let high_byte = (self.code_address / 256) * 256;
            self.code_address = high_byte + x as u16;
        }
    }

    /// Read a byte from the control port: the status flags, which are then
    /// cleared with the control flag and the pending line interrupt.
    pub fn read_control(&mut self) -> (r: u8)
        ensures
            r == old(self).status_flags,
            *final(self) == (SmsVdpState {
                status_flags: 0,
                control_flag: false,
                line_interrupt_pending: false,
                ..*old(self)
            }),
    {
        let current_status = self.status_flags;
        self.status_flags = 0;
        self.control_flag = false;
        self.line_interrupt_pending = false;
        current_status
    }

    /// The 8 bit value of the V counter: past a threshold that depends on the
    /// TV system and the resolution, the counter jumps back by a delta.
    pub open spec fn spec_read_v(self) -> u8 {
        let v = self.v as int;
        let r = match (self.tv_system, self.spec_resolution()) {
            (TvSystem::Ntsc, Resolution::Low) => if v <= 0xDA {
                v
            } else {
                v - 6
            },
            (TvSystem::Ntsc, Resolution::Medium) => if v <= 0xEA {
                v
            } else {
                v - 6
            },
            (TvSystem::Ntsc, Resolution::High) => if v <= 0xFF {
                v
            } else {
                v - 0x100
            },
            (TvSystem::Pal, Resolution::Low) => if v <= 0xF2 {
                v
            } else {
                v - 57
            },
            (TvSystem::Pal, Resolution::Medium) => if v <= 0xFF {
                v
            } else if v <= 0x102 {
                v - 0x100
            } else {
                v - 57
            },
            (TvSystem::Pal, Resolution::High) => if v <= 0xFF {
                v
            } else if v <= 0x10A {
                v - 0x100
            } else {
                v - 57
            },
        };
        (r % 256) as u8
    }

    /// Read the V counter.
    pub fn read_v(&mut self) -> (r: u8)
        ensures
            r == old(self).spec_read_v(),
            *final(self) == *old(self),
    {
        let v = self.v;
        let res = self.resolution();
        let r: u16 = match (self.tv_system, res) {
            (TvSystem::Ntsc, Resolution::Low) => if v <= 0xDA {
                v
            } else {
                v - 6
            },
            (TvSystem::Ntsc, Resolution::Medium) => if v <= 0xEA {
                v
            } else {
                v - 6
            },
            (TvSystem::Ntsc, Resolution::High) => if v <= 0xFF {
                v
            } else {
                v - 0x100
            },
            (TvSystem::Pal, Resolution::Low) => if v <= 0xF2 {
                v
            } else {
                v - 57
            },
            (TvSystem::Pal, Resolution::Medium) => if v <= 0xFF {
                v
            } else if v <= 0x102 {
                v - 0x100
            } else {
                v - 57
            },
            (TvSystem::Pal, Resolution::High) => if v <= 0xFF {
                v
            } else if v <= 0x10A {
                v - 0x100
            } else {
                v - 57
            },
        };
        (r % 256) as u8
    }

    /// The byte of VRAM at `addr`; addresses wrap at 0x4000.
    pub open spec fn spec_vram(self, addr: int) -> u8 {
        self.vram@[addr % 0x4000]
    }

    pub fn vram_at(&self, addr: u16) -> (r: u8)
        ensures
            r == self.spec_vram(addr as int),
    {
        self.vram[(addr % 0x4000) as usize]
    }

    /// The number of lines of a frame, displayed or not: 262 in NTSC, 313
    /// in PAL.
    pub open spec fn spec_total_lines(self) -> u16 {
        match self.tv_system {
            TvSystem::Ntsc => 262,
            TvSystem::Pal => 313,
        }
    }

    pub fn total_lines(&self) -> (r: u16)
        ensures
            r == self.spec_total_lines(),
    {
        match self.tv_system {
            TvSystem::Ntsc => 262,
            TvSystem::Pal => 313,
        }
    }

    /// Is the display enabled (bit 6 of register 1)?
    pub open spec fn spec_display_visible(self) -> bool {
        self.reg_bit(1, 0x40)
    }

    pub fn display_visible(&self) -> (r: bool)
        ensures
            r == self.spec_display_visible(),
    {
        self.registers[1] & 0x40 != 0
    }

    /// The number of lines displayed: 192, 224 or 240.
    pub open spec fn spec_active_lines(self) -> u16 {
        match self.spec_resolution() {
            Resolution::Low => 192,
            Resolution::Medium => 224,
            Resolution::High => 240,
        }
    }

    pub fn active_lines(&self) -> (r: u16)
        ensures
            r == self.spec_active_lines(),
    {
        match self.resolution() {
            Resolution::Low => 192,
            Resolution::Medium => 224,
            Resolution::High => 240,
        }
    }

    /// Where the name table of mode 4 starts: register 2 selects a 2 KiB
    /// boundary in the 192 line mode; the taller modes use 4 KiB boundaries,
    /// 0x700 bytes in.
    pub open spec fn spec_name_table_address(self) -> u16 {
        let r2 = self.registers@[2] as int;
        match self.spec_resolution() {
            Resolution::Low => ((r2 / 2 % 8) * 2048) as u16,
            _ => ((r2 / 4 % 4) * 4096 + 0x700) as u16,
        }
    }

    pub fn name_table_address(&self) -> (r: u16)
        ensures
            r == self.spec_name_table_address(),
    {
        let r2 = self.registers[2] as u16;
        match self.resolution() {
            Resolution::Low => (r2 / 2 % 8) * 2048,
            _ => (r2 / 4 % 4) * 4096 + 0x700,
        }
    }

    /// Where the sprite attribute table starts (register 5, 256 byte
    /// boundaries).
    pub open spec fn spec_sprite_attribute_table(self) -> u16 {
        ((self.registers@[5] as int / 2 % 64) * 256) as u16
    }

    /// The Y coordinate of sprite `i` (the table holds the line before its
    /// first).
    pub open spec fn spec_sprite_y(self, i: int) -> u8 {
        ((self.spec_vram(self.spec_sprite_attribute_table() + i) as int + 1) % 256) as u8
    }

    /// The X coordinate of sprite `i`.
    pub open spec fn spec_sprite_x(self, i: int) -> u8 {
        self.spec_vram(self.spec_sprite_attribute_table() + 0x80 + 2 * i)
    }

    /// Where the pattern of sprite `i` starts: register 6 selects the half of
    /// VRAM; tall sprites ignore bit 0 of the pattern number.
    pub open spec fn spec_sprite_pattern_address(self, i: int) -> u16 {
        let n = self.spec_vram(self.spec_sprite_attribute_table() + 0x81 + 2 * i) as int;
        let n2 = if self.reg_bit(1, 2) {
            n - n % 2
        } else {
            n
        };
        ((self.registers@[6] as int / 4 % 2) * 8192 + n2 * 32) as u16
    }

    pub fn sprite_y(&self, i: u16) -> (r: u8)
        requires
            i < 64,
        ensures
            r == self.spec_sprite_y(i as int),
    {
        let sat = ((self.registers[5] / 2 % 64) as u16) * 256;
        ((self.vram_at(sat + i) as u16 + 1) % 256) as u8
    }

    pub fn sprite_x(&self, i: u16) -> (r: u8)
        requires
            i < 64,
        ensures
            r == self.spec_sprite_x(i as int),
    {
        let sat = ((self.registers[5] / 2 % 64) as u16) * 256;
        self.vram_at(sat + 0x80 + 2 * i)
    }

    pub fn sprite_pattern_address(&self, i: u16) -> (r: u16)
        requires
            i < 64,
        ensures
            r == self.spec_sprite_pattern_address(i as int),
    {
        let sat = ((self.registers[5] / 2 % 64) as u16) * 256;
        let n = self.vram_at(sat + 0x81 + 2 * i) as u16;
        let n2 = if self.registers[1] & 2 != 0 {
            n - n % 2
        } else {
            n
        };
        ((self.registers[6] / 4 % 2) as u16) * 8192 + n2 * 32
    }

    /// The palette index of pixel `j` of line `line` of the 4 bitplane
    /// pattern at `addr`: bit `7 - j` of each of the line's 4 bytes.
    pub open spec fn spec_palette_index(self, addr: int, line: int, j: int) -> u8 {
        let b0 = self.spec_vram(addr + 4 * line);
        let b1 = self.spec_vram(addr + 4 * line + 1);
        let b2 = self.spec_vram(addr + 4 * line + 2);
        let b3 = self.spec_vram(addr + 4 * line + 3);
        let sh = (7 - j) as u8;
        ((b0 >> sh) & 1) | (((b1 >> sh) & 1) << 1u8) | (((b2 >> sh) & 1) << 2u8) | (((b3 >> sh) & 1)
            << 3u8)
    }

    /// The palette indices of the 8 pixels of a pattern line.
    pub fn pattern_address_to_palette_indices(&self, addr: u16, line: u16) -> (r: [u8; 8])
        requires
            line < 16,
        ensures
            forall|j: int| 0 <= j < 8 ==> #[trigger] r@[j] == self.spec_palette_index(addr as int, line as int, j),
            forall|j: int| 0 <= j < 8 ==> #[trigger] r@[j] < 16,
    {
        let base = addr as u32 + 4 * line as u32;
        let b0 = self.vram[((base) % 0x4000) as usize];
        let b1 = self.vram[((base + 1) % 0x4000) as usize];
        let b2 = self.vram[((base + 2) % 0x4000) as usize];
        let b3 = self.vram[((base + 3) % 0x4000) as usize];
        let mut r = [0u8; 8];
        let mut j: u8 = 0;
        while j < 8
            invariant
                j <= 8,
                line < 16,
                b0 == self.spec_vram(addr as int + 4 * line as int),
                b1 == self.spec_vram(addr as int + 4 * line as int + 1),
                b2 == self.spec_vram(addr as int + 4 * line as int + 2),
                b3 == self.spec_vram(addr as int + 4 * line as int + 3),
                forall|k: int| 0 <= k < j ==> #[trigger] r@[k] == self.spec_palette_index(addr as int, line as int, k),
                forall|k: int| 0 <= k < j ==> #[trigger] r@[k] < 16,
            decreases 8 - j,
        {
            let sh: u8 = 7 - j;
            let v = ((b0 >> sh) & 1) | (((b1 >> sh) & 1) << 1u8) | (((b2 >> sh) & 1) << 2u8) | (((b3 >> sh) & 1) << 3u8);
            assert(v < 16) by (bit_vector)
                requires
                    v == ((b0 >> sh) & 1) | (((b1 >> sh) & 1) << 1u8) | (((b2 >> sh) & 1) << 2u8) | (((b3 >> sh) & 1) << 3u8),
            ;
            r[j as usize] = v;
            j = j + 1;
        }
        r
    }

    /// The VDP after the time of its current line passes. A line is 342
    /// pixels, 342 cycles. On the lines from 0 to the last active line
    /// and the one after it, the line counter counts down; when it passes
    /// 0 it is reloaded from register 10 and a line interrupt is pending.
    /// On the other lines it is reloaded. The line right after the active
    /// display raises the frame interrupt flag. Then `v` moves to the next
    /// line, back to 0 after the last line of the frame.
    pub open spec fn spec_line_timing(self) -> Self {
        let v = self.v as int;
        let active = self.spec_active_lines() as int;
        let reload = self.registers@[10];
        let (counter, pending) = if v <= active {
            if self.line_counter == 0 {
                (reload, true)
            } else {
                ((self.line_counter - 1) as u8, self.line_interrupt_pending)
            }
        } else {
            (reload, self.line_interrupt_pending)
        };
        let status = if v == active {
            self.status_flags | FRAME_INTERRUPT_FLAG
        } else {
            self.status_flags
        };
        SmsVdpState {
            cycles: (self.cycles + 342) as u64,
            line_counter: counter,
            line_interrupt_pending: pending,
            status_flags: status,
            v: if v + 1 >= self.spec_total_lines() {
                0
            } else {
                (v + 1) as u16
            },
            ..self
        }
    }

    pub fn line_timing(&mut self)
        requires
            old(self).cycles + 342 <= u64::MAX,
        ensures
            *final(self) == old(self).spec_line_timing(),
    {
        let v = self.v;
        let active = self.active_lines();
        let reload = self.registers[10];
        if v <= active {
            if self.line_counter == 0 {
                self.line_counter = reload;
                self.line_interrupt_pending = true;
            } else {
                self.line_counter = self.line_counter - 1;
            }
        } else {
            self.line_counter = reload;
        }
        if v == active {
            self.status_flags = self.status_flags | FRAME_INTERRUPT_FLAG;
        }
        self.cycles = self.cycles + 342;
        let total = self.total_lines();
        if v >= total - 1 {
            self.v = 0;
        } else {
            self.v = v + 1;
        }
    }

    /// Read the H counter: its most significant 8 of 9 bits.
    pub fn read_h(&mut self) -> (r: u8)
        ensures
            r as int == (old(self).h as int / 2) % 256,
            *final(self) == *old(self),
    {
        ((self.h / 2) % 256) as u8
    }
}

/// The VDP after the time of `n` lines passes.
pub open spec fn spec_line_timings(vdp: SmsVdpState, n: nat) -> SmsVdpState
    decreases n,
{
    if n == 0 {
        vdp
    } else {
        spec_line_timings(vdp, (n - 1) as nat).spec_line_timing()
    }
}

/// A frame's worth of lines: from line 0, the lines of a frame (262 in
/// NTSC, 313 in PAL) pass in turn, 342 cycles each, and the VDP is back at
/// line 0 after the last one, not before.
pub proof fn lemma_frame_of_lines(vdp: SmsVdpState, n: nat)
    requires
        vdp.v == 0,
        n <= vdp.spec_total_lines(),
        vdp.cycles + 342 * n <= u64::MAX,
    ensures
        spec_line_timings(vdp, n).v == (if n == vdp.spec_total_lines() {
            0
        } else {
            n
        }),
        spec_line_timings(vdp, n).cycles == vdp.cycles + 342 * n,
        spec_line_timings(vdp, n).tv_system == vdp.tv_system,
    decreases n,
{
    if n > 0 {
        lemma_frame_of_lines(vdp, (n - 1) as nat);
    }
}

/// The data port: a byte written with code 3 goes to CRAM, into entry
/// `address mod 32` on the Master System and the SG-1000 (the other entries
/// stay), and on the Game Gear into entry `(address / 2) mod 32` as the high
/// byte of a pair whose low byte was latched at the even address before; with
/// any other code the byte goes to VRAM at the address. Either way the
/// address moves on by one, wrapping at 0x4000, the code stays, the byte is
/// left in the data buffer, and the control flag is cleared.
pub proof fn lemma_data_port_write(vdp: SmsVdpState, x: u8)
    ensures
        ({
            let s = vdp.spec_write_data(x);
            let a = vdp.spec_address() as int;
            &&& s.spec_address() == (a + 1) % 0x4000
            &&& s.spec_code() == vdp.spec_code()
            &&& s.data_buffer == x
            &&& !s.control_flag
            &&& vdp.spec_code() != 3 ==> {
                &&& s.vram@[a] == x
                &&& forall|i: int| 0 <= i < 0x4000 && i != a ==> s.vram@[i] == vdp.vram@[i]
                &&& s.cram == vdp.cram
            }
            &&& vdp.spec_code() == 3 && vdp.kind != Kind::Gg ==> {
                &&& s.cram@[a % 32] == x as u16
                &&& forall|i: int| 0 <= i < 32 && i != a % 32 ==> s.cram@[i] == vdp.cram@[i]
                &&& s.vram == vdp.vram
            }
            &&& vdp.spec_code() == 3 && vdp.kind == Kind::Gg && a % 2 == 0 ==> {
                &&& s.cram_latch == x
                &&& s.cram == vdp.cram
                &&& s.vram == vdp.vram
            }
            &&& vdp.spec_code() == 3 && vdp.kind == Kind::Gg && a % 2 == 1 ==> {
                &&& s.cram@[(a / 2) % 32] == vdp.cram_latch as u16 + 256 * x as u16
                &&& forall|i: int| 0 <= i < 32 && i != (a / 2) % 32 ==> s.cram@[i] == vdp.cram@[i]
                &&& s.vram == vdp.vram
            }
        }),
{
}

/// The V counter as the data port reads it: in NTSC it counts the lines up
/// to 0xDA in the 192 line mode and up to 0xEA in the 224 line mode, then
/// jumps back by 6; in the 240 line mode it wraps past 0xFF. In PAL it
/// counts up to 0xF2 in the 192 line mode, then jumps back by 57; in the
/// 224 and 240 line modes it counts up to 0xFF, wraps until 0x102 or 0x10A,
/// then jumps back by 57. Every reading is the line number less the jump,
/// modulo 256.
pub proof fn lemma_read_v(vdp: SmsVdpState)
    ensures
        ({
            let v = vdp.v as int;
            let back: int = match (vdp.tv_system, vdp.spec_resolution()) {
                (TvSystem::Ntsc, Resolution::Low) => if v > 0xDA { 6 } else { 0 },
                (TvSystem::Ntsc, Resolution::Medium) => if v > 0xEA { 6 } else { 0 },
                (TvSystem::Ntsc, Resolution::High) => if v > 0xFF { 0x100 } else { 0 },
                (TvSystem::Pal, Resolution::Low) => if v > 0xF2 { 57 } else { 0 },
                (TvSystem::Pal, Resolution::Medium) => if v > 0x102 {
                    57
                } else if v > 0xFF {
                    0x100
                } else {
                    0
                },
                (TvSystem::Pal, Resolution::High) => if v > 0x10A {
                    57
                } else if v > 0xFF {
                    0x100
                } else {
                    0
                },
            };
            vdp.spec_read_v() as int == (v - back) % 256
        }),
{
}

/// Setting a register: after the control port gets a byte and then a byte
/// with code 2 naming register `r` (0 to 10), register `r` holds the first
/// byte, the other registers and VRAM are as they were, and the port waits
/// for a new pair.
pub proof fn lemma_register_write(vdp: SmsVdpState, value: u8, r: u8)
    requires
        !vdp.control_flag,
        r < 11,
    ensures
        ({
            let s = vdp.spec_write_control(value).spec_write_control(0x80 | r);
            &&& s.registers@[r as int] == value
            &&& forall|i: int| 0 <= i < 11 && i != r ==> s.registers@[i] == vdp.registers@[i]
            &&& s.vram == vdp.vram
            &&& !s.control_flag
        }),
{
    assert((0x80 | r) == 0x80 + r) by (bit_vector)
        requires
            r < 11,
    ;
    let s1 = vdp.spec_write_control(value);
    assert(s1.control_flag && s1.code_address % 256 == value);
}

/// Setting an address and writing: after the control port gets the low
/// byte of an address and then its high byte with code 1, a byte written to
/// the data port lands in VRAM at that address, and the address moves on.
#[verifier::rlimit(50)]
pub proof fn lemma_vram_write(vdp: SmsVdpState, lo: u8, hi: u8, x: u8)
    requires
        !vdp.control_flag,
        hi < 0x40,
    ensures
        ({
            let s = vdp.spec_write_control(lo).spec_write_control(0x40 | hi).spec_write_data(x);
            let addr = hi as int * 256 + lo as int;
            &&& s.vram@[addr] == x
            &&& forall|i: int| 0 <= i < 0x4000 && i != addr ==> s.vram@[i] == vdp.vram@[i]
            &&& s.spec_address() == (addr + 1) % 0x4000
            &&& !s.control_flag
        }),
{
    assert((0x40 | hi) == 0x40 + hi) by (bit_vector)
        requires
            hi < 0x40,
    ;
    let s1 = vdp.spec_write_control(lo);
    assert(s1.control_flag && s1.code_address % 256 == lo);
    let s2 = s1.spec_write_control(0x40 | hi);
    let addr = hi as int * 256 + lo as int;
    assert(s2.code_address == 0x4000 + addr);
    assert(s2.spec_code() == 1 && s2.spec_address() == addr);
    assert(s2.vram == vdp.vram && !s2.control_flag);
}

/// Reads are buffered: after the control port gets an address with code 0,
/// the first read of the data port gives the byte at that address, and the
/// next read the byte after it.
pub proof fn lemma_vram_read(vdp: SmsVdpState, lo: u8, hi: u8)
    requires
        !vdp.control_flag,
        hi < 0x40,
    ensures
        ({
            let s = vdp.spec_write_control(lo).spec_write_control(hi);
            let addr = hi as int * 256 + lo as int;
            &&& s.data_buffer == vdp.vram@[addr]
            &&& s.spec_read_data().data_buffer == vdp.vram@[(addr + 1) % 0x4000]
        }),
{
}

} // verus!
