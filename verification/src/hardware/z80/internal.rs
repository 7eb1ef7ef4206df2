//! The register file and control state of the Z80, and the flag helpers that
//! the instructions are written with.
use vstd::prelude::*;
use vstd::array::spec_array_update;

verus! {

/// Carry flag
pub const CF: u8 = 0x01;

/// Subtraction flag
pub const NF: u8 = 0x02;

/// Parity/Overflow flag
pub const PF: u8 = 0x04;

/// Undocumented flag
pub const XF: u8 = 0x08;

/// Half carry flag
pub const HF: u8 = 0x10;

/// Undocumented flag
pub const YF: u8 = 0x20;

/// Zero flag
pub const ZF: u8 = 0x40;

/// Sign flag
pub const SF: u8 = 0x80;

/// The 8 bit registers, named by their byte position in the register file.
#[derive(Clone, Copy, Debug, PartialEq, Eq, Structural)]
pub enum Reg8 {
    C,
    B,
    E,
    D,
    F,
    A,
    L,
    H,
    C0,
    B0,
    E0,
    D0,
    F0,
    A0,
    L0,
    H0,
    IXL,
    IXH,
    IYL,
    IYH,
    SPL,
    SPH,
    PCL,
    PCH,
    I,
    R,
}

/// The 16 bit registers, named by their word position in the register file.
#[derive(Clone, Copy, Debug, PartialEq, Eq, Structural)]
pub enum Reg16 {
    BC,
    DE,
    AF,
    HL,
    BC0,
    DE0,
    AF0,
    HL0,
    IX,
    IY,
    SP,
    PC,
}

#[derive(Clone, Copy, Debug, PartialEq, Eq, Structural)]
pub enum Prefix {
    NoPrefix,
    Cb,
    Ed,
    Dd,
    Fd,
    DdCb,
    FdCb,
    Halt,
}

#[derive(Clone, Copy, Debug, PartialEq, Eq, Structural)]
pub enum InterruptMode {
    Im0,
    Im1,
    Im2,
}

#[derive(Clone, Copy, Debug, PartialEq, Eq, Structural)]
pub enum InterruptStatus {
    /// If we're in the middle of emulation, no need to check interrupts before
    /// the next instruction.
    NoCheck,
    /// Check interrupts before executing another instruction.
    Check,
    /// The last instruction executed was Ei, and this is how many cycles were
    /// on the clock when it finished. Don't check interrupts now, but do check
    /// them after the next instruction.
    Ei(u64),
}

/// Byte position of an 8 bit register in the register file.
pub open spec fn reg8_index(r: Reg8) -> int {
    match r {
        Reg8::C => 0,
        Reg8::B => 1,
        Reg8::E => 2,
        Reg8::D => 3,
        Reg8::F => 4,
        Reg8::A => 5,
        Reg8::L => 6,
        Reg8::H => 7,
        Reg8::C0 => 8,
        Reg8::B0 => 9,
        Reg8::E0 => 10,
        Reg8::D0 => 11,
        Reg8::F0 => 12,
        Reg8::A0 => 13,
        Reg8::L0 => 14,
        Reg8::H0 => 15,
        Reg8::IXL => 16,
        Reg8::IXH => 17,
        Reg8::IYL => 18,
        Reg8::IYH => 19,
        Reg8::SPL => 20,
        Reg8::SPH => 21,
        Reg8::PCL => 22,
        Reg8::PCH => 23,
        Reg8::I => 24,
        Reg8::R => 25,
    }
}

/// Word position of a 16 bit register in the register file.
pub open spec fn reg16_index(r: Reg16) -> int {
    match r {
        Reg16::BC => 0,
        Reg16::DE => 1,
        Reg16::AF => 2,
        Reg16::HL => 3,
        Reg16::BC0 => 4,
        Reg16::DE0 => 5,
        Reg16::AF0 => 6,
        Reg16::HL0 => 7,
        Reg16::IX => 8,
        Reg16::IY => 9,
        Reg16::SP => 10,
        Reg16::PC => 11,
    }
}

fn reg8_position(r: Reg8) -> (i: usize)
    ensures
        i == reg8_index(r),
{
    match r {
        Reg8::C => 0,
        Reg8::B => 1,
        Reg8::E => 2,
        Reg8::D => 3,
        Reg8::F => 4,
        Reg8::A => 5,
        Reg8::L => 6,
        Reg8::H => 7,
        Reg8::C0 => 8,
        Reg8::B0 => 9,
        Reg8::E0 => 10,
        Reg8::D0 => 11,
        Reg8::F0 => 12,
        Reg8::A0 => 13,
        Reg8::L0 => 14,
        Reg8::H0 => 15,
        Reg8::IXL => 16,
        Reg8::IXH => 17,
        Reg8::IYL => 18,
        Reg8::IYH => 19,
        Reg8::SPL => 20,
        Reg8::SPH => 21,
        Reg8::PCL => 22,
        Reg8::PCH => 23,
        Reg8::I => 24,
        Reg8::R => 25,
    }
}

fn reg16_position(r: Reg16) -> (i: usize)
    ensures
        i == reg16_index(r),
{
    match r {
        Reg16::BC => 0,
        Reg16::DE => 1,
        Reg16::AF => 2,
        Reg16::HL => 3,
        Reg16::BC0 => 4,
        Reg16::DE0 => 5,
        Reg16::AF0 => 6,
        Reg16::HL0 => 7,
        Reg16::IX => 8,
        Reg16::IY => 9,
        Reg16::SP => 10,
        Reg16::PC => 11,
    }
}

/// The low byte of a word.
pub open spec fn lo_byte(w: u16) -> u8 {
    (w as int % 256) as u8
}

/// The high byte of a word.
pub open spec fn hi_byte(w: u16) -> u8 {
    (w as int / 256) as u8
}

/// The word with high byte `hi` and low byte `lo`.
pub open spec fn word(lo: u8, hi: u8) -> u16 {
    (hi as int * 256 + lo as int) as u16
}

/// `m` if `b`, else 0: one flag bit of the F register.
pub open spec fn bit_if(b: bool, m: u8) -> u8 {
    if b {
        m
    } else {
        0
    }
}

/// Does `f` have all the bits of `mask` set?
pub open spec fn flag_set(f: u8, mask: u8) -> bool {
    f & mask == mask
}

/// `f` with the bits of `mask` set if `b`, cleared otherwise.
pub open spec fn flag_by(f: u8, mask: u8, b: bool) -> u8 {
    if b {
        f | mask
    } else {
        f & !mask
    }
}

/// Number of set bits of `x`.
pub open spec fn popcount(x: nat) -> nat
    decreases x,
{
    if x == 0 {
        0
    } else {
        x % 2 + popcount(x / 2)
    }
}

/// Does `x` have an even number of set bits?
pub open spec fn even_parity(x: u8) -> bool {
    popcount(x as nat) % 2 == 0
}

/// The complete state of a Z80.
///
/// The register file holds the 16 bit registers in the order of `Reg16`, with
/// `I` and `R` in the last word; each 8 bit register is the low or high byte of
/// one of these words, in the order of `Reg8`.
#[derive(Clone, Copy, Debug, PartialEq, Eq)]
pub struct Z80State {
    pub cycles: u64,
    pub registers: [u16; 13],
    pub halted: bool,
    pub iff1: bool,
    pub iff2: bool,
    pub prefix: Prefix,
    pub interrupt_mode: InterruptMode,
    pub interrupt_status: InterruptStatus,
}

impl Z80State {
    /// The value of an 8 bit register.
    pub open spec fn r8(self, r: Reg8) -> u8 {
        let w = self.registers@[reg8_index(r) / 2];
        if reg8_index(r) % 2 == 0 {
            lo_byte(w)
        } else {
            hi_byte(w)
        }
    }

    /// The value of a 16 bit register.
    pub open spec fn r16(self, r: Reg16) -> u16 {
        self.registers@[reg16_index(r)]
    }

    /// The flag register.
    pub open spec fn f(self) -> u8 {
        self.r8(Reg8::F)
    }

    /// Is the flag `mask` set?
    pub open spec fn flag(self, mask: u8) -> bool {
        flag_set(self.f(), mask)
    }

    /// This state with register word `i` replaced by `w`.
    pub open spec fn with_word(self, i: int, w: u16) -> Z80State {
        Z80State { registers: spec_array_update(self.registers, i, w), ..self }
    }

    /// This state with a 16 bit register replaced.
    pub open spec fn with_r16(self, r: Reg16, v: u16) -> Z80State {
        self.with_word(reg16_index(r), v)
    }

    /// This state with an 8 bit register replaced; the other byte of its word
    /// is kept.
    pub open spec fn with_r8(self, r: Reg8, v: u8) -> Z80State {
        let i = reg8_index(r);
        let w = self.registers@[i / 2];
        if i % 2 == 0 {
            self.with_word(i / 2, word(v, hi_byte(w)))
        } else {
            self.with_word(i / 2, word(lo_byte(w), v))
        }
    }

    /// This state with a new flag register.
    pub open spec fn with_f(self, f: u8) -> Z80State {
        self.with_r8(Reg8::F, f)
    }

    /// This state with `x` more cycles on the clock.
    pub open spec fn plus_cycles(self, x: u64) -> Z80State {
        Z80State { cycles: (self.cycles + x) as u64, ..self }
    }

    /// The state after `inc_r(x)`: the low 7 bits of R advance by `x`, the
    /// high bit is kept.
    pub open spec fn spec_inc_r(self, x: u8) -> Z80State {
        let r = self.r8(Reg8::R);
        self.with_r8(Reg8::R, (((r as int + x as int) % 128) + (r as int / 128) * 128) as u8)
    }

    /// The default state: every register 0 but IX and IY, which are 0xFFFF.
    pub open spec fn spec_default() -> Z80State {
        Z80State {
            cycles: 0,
            registers: [0, 0, 0, 0, 0, 0, 0, 0, 0xFFFF, 0xFFFF, 0, 0, 0],
            halted: false,
            iff1: false,
            iff2: false,
            prefix: Prefix::NoPrefix,
            interrupt_mode: InterruptMode::Im0,
            interrupt_status: InterruptStatus::NoCheck,
        }
    }

    pub fn new() -> (z: Z80State)
        ensures
            z == Z80State::spec_default(),
    {
        Z80State {
            cycles: 0,
            registers: [0, 0, 0, 0, 0, 0, 0, 0, 0xFFFF, 0xFFFF, 0, 0, 0],
            halted: false,
            iff1: false,
            iff2: false,
            prefix: Prefix::NoPrefix,
            interrupt_mode: InterruptMode::Im0,
            interrupt_status: InterruptStatus::NoCheck,
        }
    }

    pub fn cycles(&self) -> (r: u64)
        ensures
            r == self.cycles,
    {
        self.cycles
    }

    pub fn set_cycles(&mut self, x: u64)
        ensures
            *final(self) == (Z80State { cycles: x, ..*old(self) }),
    {
        self.cycles = x;
    }

    pub fn reg8(&self, reg8: Reg8) -> (r: u8)
        ensures
            r == self.r8(reg8),
    {
        let i = reg8_position(reg8);
        let w = self.registers[i / 2];
        if i % 2 == 0 {
            (w % 256) as u8
        } else {
            (w / 256) as u8
        }
    }

    pub fn set_reg8(&mut self, reg8: Reg8, x: u8)
        ensures
            *final(self) == old(self).with_r8(reg8, x),
    {
        let i = reg8_position(reg8);
        let w = self.registers[i / 2];
        let nw: u16 = if i % 2 == 0 {
            (w / 256) * 256 + x as u16
        } else {
            (x as u16) * 256 + w % 256
        };
        self.registers[i / 2] = nw;
        assert(self.registers =~= old(self).with_r8(reg8, x).registers);
    }

    pub fn reg16(&self, reg16: Reg16) -> (r: u16)
        ensures
            r == self.r16(reg16),
    {
        self.registers[reg16_position(reg16)]
    }

    pub fn set_reg16(&mut self, reg16: Reg16, x: u16)
        ensures
            *final(self) == old(self).with_r16(reg16, x),
    {
        let i = reg16_position(reg16);
        self.registers[i] = x;
        assert(self.registers =~= old(self).with_r16(reg16, x).registers);
    }

    pub fn halted(&self) -> (r: bool)
        ensures
            r == self.halted,
    {
        self.halted
    }

    pub fn set_halted(&mut self, x: bool)
        ensures
            *final(self) == (Z80State { halted: x, ..*old(self) }),
    {
        self.halted = x;
    }

    pub fn iff1(&self) -> (r: bool)
        ensures
            r == self.iff1,
    {
        self.iff1
    }

    pub fn set_iff1(&mut self, x: bool)
        ensures
            *final(self) == (Z80State { iff1: x, ..*old(self) }),
    {
        self.iff1 = x;
    }

    pub fn iff2(&self) -> (r: bool)
        ensures
            r == self.iff2,
    {
        self.iff2
    }

    pub fn set_iff2(&mut self, x: bool)
        ensures
            *final(self) == (Z80State { iff2: x, ..*old(self) }),
    {
        self.iff2 = x;
    }

    pub fn interrupt_mode(&self) -> (r: InterruptMode)
        ensures
            r == self.interrupt_mode,
    {
        self.interrupt_mode
    }

    pub fn set_interrupt_mode(&mut self, x: InterruptMode)
        ensures
            *final(self) == (Z80State { interrupt_mode: x, ..*old(self) }),
    {
        self.interrupt_mode = x;
    }

    pub fn prefix(&self) -> (r: Prefix)
        ensures
            r == self.prefix,
    {
        self.prefix
    }

    pub fn set_prefix(&mut self, prefix: Prefix)
        ensures
            *final(self) == (Z80State { prefix, ..*old(self) }),
    {
        self.prefix = prefix;
    }

    pub fn interrupt_status(&self) -> (r: InterruptStatus)
        ensures
            r == self.interrupt_status,
    {
        self.interrupt_status
    }

    pub fn set_interrupt_status(&mut self, interrupt_status: InterruptStatus)
        ensures
            *final(self) == (Z80State { interrupt_status, ..*old(self) }),
    {
        self.interrupt_status = interrupt_status;
    }

    /// Increment the Z80's `cycles` by `x`.
    pub fn inc_cycles(&mut self, x: u64)
        requires
            old(self).cycles + x <= u64::MAX,
        ensures
            *final(self) == old(self).plus_cycles(x),
    {
        self.cycles = self.cycles + x;
    }

    /// Increment the lower 7 bits of the R register by the given amount,
    /// maintaining the high bit.
    pub fn inc_r(&mut self, x: u8)
        ensures
            *final(self) == old(self).spec_inc_r(x),
    {
        let r = self.reg8(Reg8::R);
        let s = r.wrapping_add(x);
        let ir = s & 0x7F;
        let nr = ir | (r & 0x80);
        assert(nr == (((r as int + x as int) % 128) + (r as int / 128) * 128) as u8)
            by (bit_vector)
            requires
                s as int == (r as int + x as int) % 256,
                ir == s & 0x7F,
                nr == ir | (r & 0x80),
        ;
        self.set_reg8(Reg8::R, nr);
    }

    /// Are these bits set in the F register?
    pub fn is_set_flag(&self, x: u8) -> (r: bool)
        ensures
            r == self.flag(x),
    {
        (self.reg8(Reg8::F) & x) == x
    }

    /// Set the bits in the F register that are set in `x`.
    pub fn set_flag(&mut self, x: u8)
        ensures
            *final(self) == old(self).with_f(old(self).f() | x),
    {
        let f = self.reg8(Reg8::F);
        self.set_reg8(Reg8::F, f | x);
    }

    /// Clear the bits in the F register that are set in `x`.
    pub fn clear_flag(&mut self, x: u8)
        ensures
            *final(self) == old(self).with_f(old(self).f() & !x),
    {
        let f = self.reg8(Reg8::F);
        self.set_reg8(Reg8::F, f & !x);
    }

    /// Set or clear the bits in the F register that are set in `x` according to
    /// whether `y` is true.
    pub fn set_flag_by(&mut self, x: u8, y: bool)
        ensures
            *final(self) == old(self).with_f(flag_by(old(self).f(), x, y)),
    {
        if y {
            self.set_flag(x);
        } else {
            self.clear_flag(x);
        }
    }

    /// Set or clear the SF flag according to whether the sign bit of `x` is set.
    pub fn set_sign(&mut self, x: u8)
        ensures
            *final(self) == old(self).with_f(flag_by(old(self).f(), SF, x >= 0x80)),
    {
        let b = x & 0x80 != 0;
        assert(b == (x >= 0x80)) by (bit_vector)
            requires
                b == (x & 0x80 != 0),
        ;
        self.set_flag_by(SF, b);
    }

    /// Set or clear the ZF flag according to whether `x` is zero.
    pub fn set_zero(&mut self, x: u8)
        ensures
            *final(self) == old(self).with_f(flag_by(old(self).f(), ZF, x == 0)),
    {
        self.set_flag_by(ZF, x == 0);
    }

    /// Set or clear the PF flag according to whether `x` has even parity.
    pub fn set_parity(&mut self, x: u8)
        ensures
            *final(self) == old(self).with_f(flag_by(old(self).f(), PF, even_parity(x))),
    {
        self.set_flag_by(PF, count_ones(x) % 2 == 0);
    }

    /// A copy of the whole state.
    pub fn state(&self) -> (r: Z80State)
        ensures
            r == *self,
    {
        *self
    }
}

/// Reading an 8 bit register gives back what was last written to it.
pub broadcast proof fn lemma_r8_with_r8(z: Z80State, r: Reg8, s: Reg8, v: u8)
    ensures
        #[trigger] z.with_r8(r, v).r8(s) == if r == s {
            v
        } else {
            z.r8(s)
        },
{
}

/// Writing an 8 bit register twice keeps only the second write.
pub broadcast proof fn lemma_with_r8_twice(z: Z80State, r: Reg8, v: u8, w: u8)
    ensures
        #[trigger] z.with_r8(r, v).with_r8(r, w) == z.with_r8(r, w),
{
    assert(z.with_r8(r, v).with_r8(r, w).registers =~= z.with_r8(r, w).registers);
}

/// Reading a 16 bit register gives back what was last written to it.
pub broadcast proof fn lemma_r16_with_r16(z: Z80State, r: Reg16, s: Reg16, v: u16)
    ensures
        #[trigger] z.with_r16(r, v).r16(s) == if r == s {
            v
        } else {
            z.r16(s)
        },
{
}

/// Writing a 16 bit register twice keeps only the second write.
pub broadcast proof fn lemma_with_r16_twice(z: Z80State, r: Reg16, v: u16, w: u16)
    ensures
        #[trigger] z.with_r16(r, v).with_r16(r, w) == z.with_r16(r, w),
{
    assert(z.with_r16(r, v).with_r16(r, w).registers =~= z.with_r16(r, w).registers);
}

/// An 8 bit register and a 16 bit register in different words do not affect
/// each other.
pub broadcast proof fn lemma_r8_with_r16(z: Z80State, r: Reg16, s: Reg8, v: u16)
    ensures
        reg16_index(r) != reg8_index(s) / 2 ==> #[trigger] z.with_r16(r, v).r8(s) == z.r8(s),
{
}

pub broadcast proof fn lemma_r16_with_r8(z: Z80State, r: Reg8, s: Reg16, v: u8)
    ensures
        reg16_index(s) != reg8_index(r) / 2 ==> #[trigger] z.with_r8(r, v).r16(s) == z.r16(s),
{
}

/// A 16 bit register is the word made of its two 8 bit halves.
pub proof fn lemma_r16_halves(z: Z80State, r: Reg16, lo: Reg8, hi: Reg8)
    requires
        reg8_index(lo) == 2 * reg16_index(r),
        reg8_index(hi) == 2 * reg16_index(r) + 1,
    ensures
        z.r16(r) == word(z.r8(lo), z.r8(hi)),
{
}

pub broadcast group group_z80_state {
    lemma_r8_with_r8,
    lemma_with_r8_twice,
    lemma_r16_with_r16,
    lemma_with_r16_twice,
    lemma_r8_with_r16,
    lemma_r16_with_r8,
}

/// Never more set bits than the value itself.
pub proof fn lemma_popcount_le(n: nat)
    ensures
        popcount(n) <= n,
    decreases n,
{
    if n > 0 {
        lemma_popcount_le(n / 2);
    }
}

/// The number of set bits of `x`.
pub fn count_ones(x: u8) -> (r: u8)
    ensures
        r as nat == popcount(x as nat),
{
    let mut y = x;
    let mut c: u8 = 0;
    proof {
        lemma_popcount_le(x as nat);
    }
    while y != 0
        invariant
            c as nat + popcount(y as nat) == popcount(x as nat),
            popcount(x as nat) <= 255,
        decreases y,
    {
        assert(popcount(y as nat) == (y as nat) % 2 + popcount((y as nat) / 2));
        c = c + y % 2;
        y = y / 2;
    }
    c
}

/// Transfer all registers and the interrupt and prefix state of `source`
/// into `dest`; only the cycle count of `dest` stays.
pub fn transfer_state(dest: &mut Z80State, source: &Z80State)
    ensures
        *final(dest) == (Z80State { cycles: old(dest).cycles, ..*source }),
{
    let cycles = dest.cycles;
    *dest = Z80State { cycles, ..*source };
}

} // verus!
