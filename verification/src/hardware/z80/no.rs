//! Z80 instructions that don't depend on memory or IO.
use vstd::prelude::*;
use super::alu;
use super::internal::{
    flag_by, flag_set, InterruptMode, InterruptStatus, Prefix, Reg16, Reg8, Z80State, CF, HF,
    NF, PF, SF, ZF,
};

verus! {

broadcast use super::internal::group_z80_state;

/// A condition that conditional jumps, calls and returns test.
#[derive(Clone, Copy, Debug, PartialEq, Eq, Structural)]
pub enum ConditionCode {
    NZcc,
    Zcc,
    NCcc,
    Ccc,
    POcc,
    PEcc,
    Pcc,
    Mcc,
}

/// Does the flag register `f` satisfy the condition?
pub open spec fn spec_check(cc: ConditionCode, f: u8) -> bool {
    match cc {
        ConditionCode::NZcc => !flag_set(f, ZF),
        ConditionCode::Zcc => flag_set(f, ZF),
        ConditionCode::NCcc => !flag_set(f, CF),
        ConditionCode::Ccc => flag_set(f, CF),
        ConditionCode::POcc => !flag_set(f, PF),
        ConditionCode::PEcc => flag_set(f, PF),
        ConditionCode::Pcc => !flag_set(f, SF),
        ConditionCode::Mcc => flag_set(f, SF),
    }
}

impl ConditionCode {
    pub fn check(self, f: u8) -> (r: bool)
        ensures
            r == spec_check(self, f),
    {
        match self {
            ConditionCode::NZcc => (f & ZF) != ZF,
            ConditionCode::Zcc => (f & ZF) == ZF,
            ConditionCode::NCcc => (f & CF) != CF,
            ConditionCode::Ccc => (f & CF) == CF,
            ConditionCode::POcc => (f & PF) != PF,
            ConditionCode::PEcc => (f & PF) == PF,
            ConditionCode::Pcc => (f & SF) != SF,
            ConditionCode::Mcc => (f & SF) == SF,
        }
    }
}

/// Cycle counts below this bound leave room for the cycles one instruction
/// adds.
pub open spec fn cycles_ok(z: Z80State) -> bool {
    z.cycles < 0x8000_0000_0000_0000
}

/// `x + e` on 16 bit values, `e` signed.
pub open spec fn add_signed(x: u16, e: i8) -> u16 {
    ((x as int + e as int + 65536) % 65536) as u16
}

/// `adc16 x, y`
pub open spec fn spec_adc16(z: Z80State, x: Reg16, y: Reg16) -> Z80State {
    let (r, f) = alu::spec_adc16(z.r16(x), z.r16(y), z.flag(CF), z.f());
    z.with_f(f).with_r16(x, r)
}

pub fn adc16(z: &mut Z80State, x: Reg16, y: Reg16)
    ensures
        *final(z) == spec_adc16(*old(z), x, y),
{
    let x0 = z.reg16(x);
    let y0 = z.reg16(y);
    let (r, f) = alu::adc16(x0, y0, z.is_set_flag(CF), z.reg8(Reg8::F));
    z.set_reg8(Reg8::F, f);
    z.set_reg16(x, r);
}

/// `add16 x, y`
pub open spec fn spec_add16(z: Z80State, x: Reg16, y: Reg16) -> Z80State {
    let (r, f) = alu::spec_add16(z.r16(x), z.r16(y), z.f());
    z.with_f(f).with_r16(x, r)
}

pub fn add16(z: &mut Z80State, x: Reg16, y: Reg16)
    ensures
        *final(z) == spec_add16(*old(z), x, y),
{
    let x0 = z.reg16(x);
    let y0 = z.reg16(y);
    let (r, f) = alu::add16(x0, y0, z.reg8(Reg8::F));
    z.set_reg8(Reg8::F, f);
    z.set_reg16(x, r);
}

/// `sbc16 x, y`
pub open spec fn spec_sbc16(z: Z80State, x: Reg16, y: Reg16) -> Z80State {
    let (r, f) = alu::spec_sbc16(z.r16(x), z.r16(y), z.flag(CF), z.f());
    z.with_f(f).with_r16(x, r)
}

pub fn sbc16(z: &mut Z80State, x: Reg16, y: Reg16)
    ensures
        *final(z) == spec_sbc16(*old(z), x, y),
{
    let x0 = z.reg16(x);
    let y0 = z.reg16(y);
    let (r, f) = alu::sbc16(x0, y0, z.is_set_flag(CF), z.reg8(Reg8::F));
    z.set_reg8(Reg8::F, f);
    z.set_reg16(x, r);
}

/// `ccf`: H takes the old carry, the carry is complemented, N is cleared.
pub open spec fn spec_ccf(z: Z80State) -> Z80State {
    let cf = z.flag(CF);
    z.with_f(flag_by(flag_by(flag_by(z.f(), HF, cf), CF, !cf), NF, false))
}

pub fn ccf(z: &mut Z80State)
    ensures
        *final(z) == spec_ccf(*old(z)),
{
    let cf = z.is_set_flag(CF);
    z.set_flag_by(HF, cf);
    z.set_flag_by(CF, !cf);
    z.clear_flag(NF);
}

/// `cpl`: A is complemented, H and N are set.
pub open spec fn spec_cpl(z: Z80State) -> Z80State {
    let a = z.r8(Reg8::A);
    let z1 = z.with_r8(Reg8::A, !a);
    z1.with_f(z1.f() | (HF | NF))
}

pub fn cpl(z: &mut Z80State)
    ensures
        *final(z) == spec_cpl(*old(z)),
{
    let a = z.reg8(Reg8::A);
    z.set_reg8(Reg8::A, !a);
    z.set_flag(HF | NF);
}

/// `daa`
pub open spec fn spec_daa(z: Z80State) -> Z80State {
    let (r, f) = alu::spec_daa(z.r8(Reg8::A), z.f());
    z.with_r8(Reg8::A, r).with_f(f)
}

pub fn daa(z: &mut Z80State)
    ensures
        *final(z) == spec_daa(*old(z)),
{
    let a = z.reg8(Reg8::A);
    let f = z.reg8(Reg8::F);
    let (r, nf) = alu::daa(a, f);
    z.set_reg8(Reg8::A, r);
    z.set_reg8(Reg8::F, nf);
}

/// `dec16 x`
pub open spec fn spec_dec16(z: Z80State, x: Reg16) -> Z80State {
    z.with_r16(x, ((z.r16(x) as int + 65535) % 65536) as u16)
}

pub fn dec16(z: &mut Z80State, x: Reg16)
    ensures
        *final(z) == spec_dec16(*old(z), x),
{
    let val = z.reg16(x);
    z.set_reg16(x, val.wrapping_sub(1));
}

/// `inc16 x`
pub open spec fn spec_inc16(z: Z80State, x: Reg16) -> Z80State {
    z.with_r16(x, ((z.r16(x) as int + 1) % 65536) as u16)
}

pub fn inc16(z: &mut Z80State, x: Reg16)
    ensures
        *final(z) == spec_inc16(*old(z), x),
{
    let x0 = z.reg16(x);
    z.set_reg16(x, x0.wrapping_add(1));
}

/// `di`: both interrupt flip-flops cleared.
pub open spec fn spec_di(z: Z80State) -> Z80State {
    Z80State { iff1: false, iff2: false, interrupt_status: InterruptStatus::NoCheck, ..z }
}

pub fn di(z: &mut Z80State)
    ensures
        *final(z) == spec_di(*old(z)),
{
    z.set_iff1(false);
    z.set_iff2(false);
    z.set_interrupt_status(InterruptStatus::NoCheck);
}

/// `ei`: both interrupt flip-flops set; interrupts are checked after the
/// next instruction.
pub open spec fn spec_ei(z: Z80State) -> Z80State {
    Z80State {
        iff1: true,
        iff2: true,
        interrupt_status: InterruptStatus::Ei(((z.cycles as int + 4) % 0x1_0000_0000_0000_0000) as u64),
        ..z
    }
}

pub fn ei(z: &mut Z80State)
    ensures
        *final(z) == spec_ei(*old(z)),
{
    z.set_iff1(true);
    z.set_iff2(true);
    let cycles = z.cycles().wrapping_add(4);
    z.set_interrupt_status(InterruptStatus::Ei(cycles));
}

/// `jr e`: a relative jump.
pub open spec fn spec_jr(z: Z80State, e: i8) -> Z80State {
    z.with_r16(Reg16::PC, add_signed(z.r16(Reg16::PC), e))
}

pub fn jr(z: &mut Z80State, e: i8)
    ensures
        *final(z) == spec_jr(*old(z), e),
{
    let pc = z.reg16(Reg16::PC);
    let ee: u16 = if e < 0 {
        (65536 + e as i32) as u16
    } else {
        e as u16
    };
    z.set_reg16(Reg16::PC, pc.wrapping_add(ee));
}

/// `djnz e`: decrement B, and jump unless it became 0.
pub open spec fn spec_djnz(z: Z80State, e: i8) -> Z80State {
    let new_b = ((z.r8(Reg8::B) as int + 255) % 256) as u8;
    let z1 = z.with_r8(Reg8::B, new_b);
    if new_b != 0 {
        spec_jr(z1.plus_cycles(13), e)
    } else {
        z1.plus_cycles(8)
    }
}

pub fn djnz(z: &mut Z80State, e: i8)
    requires
        cycles_ok(*old(z)),
    ensures
        *final(z) == spec_djnz(*old(z), e),
        final(z).cycles <= old(z).cycles + 13,
{
    let b = z.reg8(Reg8::B);
    let new_b = b.wrapping_sub(1);
    z.set_reg8(Reg8::B, new_b);
    if new_b != 0 {
        z.inc_cycles(13);
        jr(z, e);
    } else {
        z.inc_cycles(8);
    }
}

/// `exx`: exchange BC, DE, HL with their shadows.
pub open spec fn spec_exx(z: Z80State) -> Z80State {
    z.with_r16(Reg16::BC, z.r16(Reg16::BC0)).with_r16(Reg16::BC0, z.r16(Reg16::BC)).with_r16(
        Reg16::DE,
        z.r16(Reg16::DE0),
    ).with_r16(Reg16::DE0, z.r16(Reg16::DE)).with_r16(Reg16::HL, z.r16(Reg16::HL0)).with_r16(
        Reg16::HL0,
        z.r16(Reg16::HL),
    )
}

fn swap16(z: &mut Z80State, reg1: Reg16, reg2: Reg16)
    ensures
        *final(z) == old(z).with_r16(reg1, old(z).r16(reg2)).with_r16(reg2, old(z).r16(reg1)),
{
    let val1 = z.reg16(reg1);
    let val2 = z.reg16(reg2);
    z.set_reg16(reg1, val2);
    z.set_reg16(reg2, val1);
}

pub fn exx(z: &mut Z80State)
    ensures
        *final(z) == spec_exx(*old(z)),
{
    swap16(z, Reg16::BC, Reg16::BC0);
    swap16(z, Reg16::DE, Reg16::DE0);
    swap16(z, Reg16::HL, Reg16::HL0);
}

/// `halt`
pub open spec fn spec_set_prefix(z: Z80State, p: Prefix) -> Z80State {
    Z80State { prefix: p, ..z }
}

pub fn halt(z: &mut Z80State)
    ensures
        *final(z) == spec_set_prefix(*old(z), Prefix::Halt),
{
    z.set_prefix(Prefix::Halt);
}

/// The interrupt mode that `im x` selects.
pub open spec fn spec_im_mode(x: u8) -> InterruptMode {
    if x == 0 {
        InterruptMode::Im0
    } else if x == 1 {
        InterruptMode::Im1
    } else {
        InterruptMode::Im2
    }
}

/// `im x`
pub fn im(z: &mut Z80State, x: u8)
    requires
        x <= 2,
    ensures
        *final(z) == (Z80State { interrupt_mode: spec_im_mode(x), ..*old(z) }),
{
    match x {
        0 => z.set_interrupt_mode(InterruptMode::Im0),
        1 => z.set_interrupt_mode(InterruptMode::Im1),
        _ => z.set_interrupt_mode(InterruptMode::Im2),
    }
}

/// `jp cc, nn`
pub open spec fn spec_jpcc(z: Z80State, cc: ConditionCode, nn: u16) -> Z80State {
    if spec_check(cc, z.f()) {
        z.with_r16(Reg16::PC, nn)
    } else {
        z
    }
}

pub fn jpcc(z: &mut Z80State, cc: ConditionCode, nn: u16)
    ensures
        *final(z) == spec_jpcc(*old(z), cc, nn),
{
    let flags = z.reg8(Reg8::F);
    if cc.check(flags) {
        z.set_reg16(Reg16::PC, nn);
    }
}

/// `jr cc, e`
pub open spec fn spec_jrcc(z: Z80State, cc: ConditionCode, e: i8) -> Z80State {
    if spec_check(cc, z.f()) {
        spec_jr(z.plus_cycles(12), e)
    } else {
        z.plus_cycles(7)
    }
}

pub fn jrcc(z: &mut Z80State, cc: ConditionCode, e: i8)
    requires
        cycles_ok(*old(z)),
    ensures
        *final(z) == spec_jrcc(*old(z), cc, e),
        final(z).cycles <= old(z).cycles + 12,
{
    let flags = z.reg8(Reg8::F);
    if cc.check(flags) {
        z.inc_cycles(12);
        jr(z, e);
    } else {
        z.inc_cycles(7);
    }
}

/// `ld a, i` and `ld a, r`: S and Z from the value, H and N cleared, P/V from
/// IFF2.
pub open spec fn spec_ld_ir(z: Z80State, x: Reg8, y: Reg8) -> Z80State {
    let y0 = z.r8(y);
    let z1 = z.with_r8(x, y0);
    z1.with_f(
        flag_by(
            flag_by(flag_by(flag_by(z1.f(), SF, y0 >= 0x80), ZF, y0 == 0), NF | HF, false),
            PF,
            z.iff2,
        ),
    )
}

pub fn ld_ir(z: &mut Z80State, x: Reg8, y: Reg8)
    ensures
        *final(z) == spec_ld_ir(*old(z), x, y),
{
    let y0 = z.reg8(y);
    z.set_reg8(x, y0);
    let iff2 = z.iff2();
    z.set_sign(y0);
    z.set_zero(y0);
    z.clear_flag(NF | HF);
    z.set_flag_by(PF, iff2);
}

/// `neg`: A = 0 - A, P/V set iff A was 0x80, C set iff A was not 0.
pub open spec fn spec_neg(z: Z80State) -> Z80State {
    let a = z.r8(Reg8::A);
    let (r, f) = alu::spec_sub8(0, a, false, z.f());
    let z1 = z.with_f(f).with_r8(Reg8::A, r);
    z1.with_f(flag_by(flag_by(z1.f(), PF, a == 0x80), CF, a != 0))
}

pub fn neg(z: &mut Z80State)
    ensures
        *final(z) == spec_neg(*old(z)),
{
    let a = z.reg8(Reg8::A);
    let (r, f) = alu::sub8(0, a, false, z.reg8(Reg8::F));
    z.set_reg8(Reg8::F, f);
    z.set_reg8(Reg8::A, r);
    z.set_flag_by(PF, a == 0x80);
    z.set_flag_by(CF, a != 0);
}

/// `nop`
pub fn nop(z: &mut Z80State)
    ensures
        *final(z) == *old(z),
{
}

/// `scf`: H and N cleared, C set.
pub open spec fn spec_scf(z: Z80State) -> Z80State {
    let z1 = z.with_f(z.f() & !(HF | NF));
    z1.with_f(z1.f() | CF)
}

pub fn scf(z: &mut Z80State)
    ensures
        *final(z) == spec_scf(*old(z)),
{
    z.clear_flag(HF | NF);
    z.set_flag(CF);
}

/// The prefix transitions: the next byte is read as part of an instruction
/// of the given group.
pub fn prefix(z: &mut Z80State, p: Prefix)
    ensures
        *final(z) == spec_set_prefix(*old(z), p),
{
    z.set_prefix(p);
}

} // verus!
