//! Z80 instructions that may read or write memory.
use vstd::prelude::*;
use crate::hardware::memory16::Memory16;
use super::alu::{self, Rotation};
use super::internal::{
    flag_by, hi_byte, lo_byte, word, InterruptStatus, Reg16, Reg8, Z80State, CF, HF, NF, PF, ZF,
    XF, YF, SF,
};
use super::no::{cycles_ok, spec_check, ConditionCode};
use super::operand::{
    address8, change16, change8, changeable16, changeable8, get16, get8, next, set16, set8,
    view16, view8, Operand16, Operand8,
};

verus! {

broadcast use super::internal::group_z80_state;

/// `ld x, y` (8 bit)
pub open spec fn spec_ld<M: Memory16>(z: Z80State, m: M, x: Operand8, y: Operand8) -> (
    Z80State,
    M,
) {
    change8(z, m, x, view8(z, m, y))
}

pub fn ld<M: Memory16>(z: &mut Z80State, m: &mut M, x: Operand8, y: Operand8)
    ensures
        (*final(z), *final(m)) == spec_ld(*old(z), *old(m), x, y),
{
    let val = get8(z, m, y);
    set8(z, m, x, val);
}

/// `ld x, y` (16 bit)
pub open spec fn spec_ld16<M: Memory16>(z: Z80State, m: M, x: Operand16, y: Operand16) -> (
    Z80State,
    M,
) {
    change16(z, m, x, view16(z, m, y))
}

pub fn ld16<M: Memory16>(z: &mut Z80State, m: &mut M, x: Operand16, y: Operand16)
    ensures
        (*final(z), *final(m)) == spec_ld16(*old(z), *old(m), x, y),
{
    let val = get16(z, m, y);
    set16(z, m, x, val);
}

/// `add x, y`, or `adc x, y` when `carry`: the sum goes to `x`.
pub open spec fn spec_add<M: Memory16>(z: Z80State, m: M, x: Reg8, y: Operand8, carry: bool) -> (
    Z80State,
    M,
) {
    let c = carry && z.flag(CF);
    let (r, f) = alu::spec_add8(z.r8(x), view8(z, m, y), c, z.f());
    (z.with_f(f).with_r8(x, r), m)
}

pub fn add<M: Memory16>(z: &mut Z80State, m: &mut M, x: Reg8, y: Operand8, carry: bool)
    ensures
        (*final(z), *final(m)) == spec_add(*old(z), *old(m), x, y, carry),
{
    let c = carry && z.is_set_flag(CF);
    let x0 = z.reg8(x);
    let y0 = get8(z, m, y);
    let (r, f) = alu::add8(x0, y0, c, z.reg8(Reg8::F));
    z.set_reg8(Reg8::F, f);
    z.set_reg8(x, r);
}

/// `sub x, y`, or `sbc x, y` when `carry`: the difference goes to `x`.
pub open spec fn spec_sub<M: Memory16>(z: Z80State, m: M, x: Reg8, y: Operand8, carry: bool) -> (
    Z80State,
    M,
) {
    let c = carry && z.flag(CF);
    let (r, f) = alu::spec_sub8(z.r8(x), view8(z, m, y), c, z.f());
    (z.with_f(f).with_r8(x, r), m)
}

pub fn sub<M: Memory16>(z: &mut Z80State, m: &mut M, x: Reg8, y: Operand8, carry: bool)
    ensures
        (*final(z), *final(m)) == spec_sub(*old(z), *old(m), x, y, carry),
{
    let c = carry && z.is_set_flag(CF);
    let x0 = z.reg8(x);
    let y0 = get8(z, m, y);
    let (r, f) = alu::sub8(x0, y0, c, z.reg8(Reg8::F));
    z.set_reg8(Reg8::F, f);
    z.set_reg8(x, r);
}

/// `cp y`: the flags of `A - y`, with A unchanged.
pub open spec fn spec_cp<M: Memory16>(z: Z80State, m: M, y: Operand8) -> (Z80State, M) {
    let (r, f) = alu::spec_sub8(z.r8(Reg8::A), view8(z, m, y), false, z.f());
    (z.with_f(f), m)
}

pub fn cp<M: Memory16>(z: &mut Z80State, m: &mut M, y: Operand8)
    ensures
        (*final(z), *final(m)) == spec_cp(*old(z), *old(m), y),
{
    let x0 = get8(z, m, y);
    let a = z.reg8(Reg8::A);
    let (_r, f) = alu::sub8(a, x0, false, z.reg8(Reg8::F));
    z.set_reg8(Reg8::F, f);
}

/// The logical operations of A with an operand.
#[derive(Clone, Copy, Debug, PartialEq, Eq, Structural)]
pub enum Logic {
    And,
    Or,
    Xor,
}

pub open spec fn spec_logic_value(k: Logic, a: u8, y: u8) -> u8 {
    match k {
        Logic::And => y & a,
        Logic::Or => y | a,
        Logic::Xor => y ^ a,
    }
}

/// `and y`, `or y`, `xor y`: A takes the result, S, Z, P from it, N and C
/// cleared, H set for `and` and cleared otherwise.
pub open spec fn spec_logic<M: Memory16>(z: Z80State, m: M, k: Logic, y: Operand8) -> (
    Z80State,
    M,
) {
    let r = spec_logic_value(k, z.r8(Reg8::A), view8(z, m, y));
    let z1 = z.with_r8(Reg8::A, r);
    let z2 = z1.with_f(alu::spec_logic_flags(r, z1.f()));
    if k == Logic::And {
        (z2.with_f(z2.f() | HF), m)
    } else {
        (z2, m)
    }
}

pub fn logic<M: Memory16>(z: &mut Z80State, m: &mut M, k: Logic, y: Operand8)
    ensures
        (*final(z), *final(m)) == spec_logic(*old(z), *old(m), k, y),
{
    let y0 = get8(z, m, y);
    let a = z.reg8(Reg8::A);
    let r = match k {
        Logic::And => y0 & a,
        Logic::Or => y0 | a,
        Logic::Xor => y0 ^ a,
    };
    z.set_reg8(Reg8::A, r);
    let f = alu::logic_flags(r, z.reg8(Reg8::F));
    z.set_reg8(Reg8::F, f);
    if let Logic::And = k {
        z.set_flag(HF);
    }
}

/// `inc x`, or `dec x` when `down`; C is kept.
pub open spec fn spec_inc_dec<M: Memory16>(z: Z80State, m: M, x: Operand8, down: bool) -> (
    Z80State,
    M,
) {
    let x0 = view8(z, m, x);
    let (r, f) = if down {
        alu::spec_dec8(x0, z.f())
    } else {
        alu::spec_inc8(x0, z.f())
    };
    let (z1, m1) = change8(z, m, x, r);
    (z1.with_f(f), m1)
}

pub fn inc_dec<M: Memory16>(z: &mut Z80State, m: &mut M, x: Operand8, down: bool)
    ensures
        (*final(z), *final(m)) == spec_inc_dec(*old(z), *old(m), x, down),
{
    let x0 = get8(z, m, x);
    let f0 = z.reg8(Reg8::F);
    let (r, f) = if down {
        alu::dec8(x0, f0)
    } else {
        alu::inc8(x0, f0)
    };
    set8(z, m, x, r);
    z.set_reg8(Reg8::F, f);
}

/// `ex x, y`: exchange a register pair with another or with the word at `(SP)`.
pub open spec fn spec_ex<M: Memory16>(z: Z80State, m: M, x: Operand16, y: Reg16) -> (
    Z80State,
    M,
) {
    let val1 = view16(z, m, x);
    let val2 = z.r16(y);
    let (z1, m1) = change16(z, m, x, val2);
    (z1.with_r16(y, val1), m1)
}

pub fn ex<M: Memory16>(z: &mut Z80State, m: &mut M, x: Operand16, y: Reg16)
    ensures
        (*final(z), *final(m)) == spec_ex(*old(z), *old(m), x, y),
{
    let val1 = get16(z, m, x);
    let val2 = z.reg16(y);
    set16(z, m, x, val2);
    z.set_reg16(y, val1);
}

/// `jp x`
pub open spec fn spec_jp<M: Memory16>(z: Z80State, m: M, x: Operand16) -> (Z80State, M) {
    (z.with_r16(Reg16::PC, view16(z, m, x)), m)
}

pub fn jp<M: Memory16>(z: &mut Z80State, m: &mut M, x: Operand16)
    ensures
        (*final(z), *final(m)) == spec_jp(*old(z), *old(m), x),
{
    let addr = get16(z, m, x);
    z.set_reg16(Reg16::PC, addr);
}

/// `x - 1` on 16 bit values, wrapping.
pub open spec fn prev(x: u16) -> u16 {
    ((x as int + 65535) % 65536) as u16
}

/// `x - 2` on 16 bit values, wrapping.
pub open spec fn prev2(x: u16) -> u16 {
    ((x as int + 65534) % 65536) as u16
}

/// `x + 2` on 16 bit values, wrapping.
pub open spec fn next2(x: u16) -> u16 {
    ((x as int + 2) % 65536) as u16
}

/// Push a word: high byte at SP - 1, low byte at SP - 2, SP decreased by 2.
pub open spec fn spec_push_value<M: Memory16>(z: Z80State, m: M, v: u16) -> (Z80State, M) {
    let sp = z.r16(Reg16::SP);
    let m1 = m.spec_write(prev(sp), hi_byte(v)).spec_write(prev2(sp), lo_byte(v));
    (z.with_r16(Reg16::SP, prev2(sp)), m1)
}

fn push_value<M: Memory16>(z: &mut Z80State, m: &mut M, v: u16)
    ensures
        (*final(z), *final(m)) == spec_push_value(*old(z), *old(m), v),
{
    let lo = (v % 256) as u8;
    let hi = (v / 256) as u8;
    let sp = z.reg16(Reg16::SP);
    m.write(sp.wrapping_sub(1), hi);
    m.write(sp.wrapping_sub(2), lo);
    z.set_reg16(Reg16::SP, sp.wrapping_sub(2));
}

/// `push x`
pub open spec fn spec_push<M: Memory16>(z: Z80State, m: M, x: Reg16) -> (Z80State, M) {
    spec_push_value(z, m, z.r16(x))
}

pub fn push<M: Memory16>(z: &mut Z80State, m: &mut M, x: Reg16)
    ensures
        (*final(z), *final(m)) == spec_push(*old(z), *old(m), x),
{
    let v = z.reg16(x);
    push_value(z, m, v);
}

/// The word at the top of the stack.
pub open spec fn stack_top<M: Memory16>(z: Z80State, m: M) -> u16 {
    let sp = z.r16(Reg16::SP);
    word(m.spec_read(sp), m.spec_read(next(sp)))
}

/// `pop x`
pub open spec fn spec_pop<M: Memory16>(z: Z80State, m: M, x: Reg16) -> (Z80State, M) {
    let sp = z.r16(Reg16::SP);
    (z.with_r16(x, stack_top(z, m)).with_r16(Reg16::SP, next2(sp)), m)
}

pub fn pop<M: Memory16>(z: &mut Z80State, m: &mut M, x: Reg16)
    ensures
        (*final(z), *final(m)) == spec_pop(*old(z), *old(m), x),
{
    let sp = z.reg16(Reg16::SP);
    let lo = m.read(sp);
    let hi = m.read(sp.wrapping_add(1));
    z.set_reg16(x, (hi as u16) * 256 + lo as u16);
    z.set_reg16(Reg16::SP, sp.wrapping_add(2));
}

/// `call x` and `rst x`: push PC, then jump.
pub open spec fn spec_call<M: Memory16>(z: Z80State, m: M, x: u16) -> (Z80State, M) {
    let (z1, m1) = spec_push_value(z, m, z.r16(Reg16::PC));
    (z1.with_r16(Reg16::PC, x), m1)
}

pub fn call<M: Memory16>(z: &mut Z80State, m: &mut M, x: u16)
    ensures
        (*final(z), *final(m)) == spec_call(*old(z), *old(m), x),
{
    let pc = z.reg16(Reg16::PC);
    push_value(z, m, pc);
    z.set_reg16(Reg16::PC, x);
}

/// `call cc, x`
pub open spec fn spec_callcc<M: Memory16>(z: Z80State, m: M, cc: ConditionCode, x: u16) -> (
    Z80State,
    M,
) {
    if spec_check(cc, z.f()) {
        let (z1, m1) = spec_call(z, m, x);
        (z1.plus_cycles(17), m1)
    } else {
        (z.plus_cycles(10), m)
    }
}

pub fn callcc<M: Memory16>(z: &mut Z80State, m: &mut M, cc: ConditionCode, x: u16)
    requires
        cycles_ok(*old(z)),
    ensures
        (*final(z), *final(m)) == spec_callcc(*old(z), *old(m), cc, x),
        final(z).cycles <= old(z).cycles + 17,
{
    let f = z.reg8(Reg8::F);
    if cc.check(f) {
        call(z, m, x);
        z.inc_cycles(17);
    } else {
        z.inc_cycles(10);
    }
}

/// `ret`: pop PC.
pub open spec fn spec_ret<M: Memory16>(z: Z80State, m: M) -> (Z80State, M) {
    spec_pop(z, m, Reg16::PC)
}

pub fn ret<M: Memory16>(z: &mut Z80State, m: &mut M)
    ensures
        (*final(z), *final(m)) == spec_ret(*old(z), *old(m)),
{
    pop(z, m, Reg16::PC);
}

/// `ret cc`
pub open spec fn spec_retcc<M: Memory16>(z: Z80State, m: M, cc: ConditionCode) -> (Z80State, M) {
    if spec_check(cc, z.f()) {
        let (z1, m1) = spec_ret(z, m);
        (z1.plus_cycles(11), m1)
    } else {
        (z.plus_cycles(5), m)
    }
}

pub fn retcc<M: Memory16>(z: &mut Z80State, m: &mut M, cc: ConditionCode)
    requires
        cycles_ok(*old(z)),
    ensures
        (*final(z), *final(m)) == spec_retcc(*old(z), *old(m), cc),
        final(z).cycles <= old(z).cycles + 11,
{
    let f = z.reg8(Reg8::F);
    if cc.check(f) {
        ret(z, m);
        z.inc_cycles(11);
    } else {
        z.inc_cycles(5);
    }
}

/// `retn` and `reti`: IFF1 takes IFF2 (interrupts are checked next if that
/// enables them), then PC is popped.
pub open spec fn spec_retn<M: Memory16>(z: Z80State, m: M) -> (Z80State, M) {
    let z1 = Z80State {
        iff1: z.iff2,
        interrupt_status: if z.iff2 {
            InterruptStatus::Check
        } else {
            z.interrupt_status
        },
        ..z
    };
    spec_ret(z1, m)
}

pub fn retn<M: Memory16>(z: &mut Z80State, m: &mut M)
    ensures
        (*final(z), *final(m)) == spec_retn(*old(z), *old(m)),
{
    let iff2 = z.iff2();
    z.set_iff1(iff2);
    if iff2 {
        z.set_interrupt_status(InterruptStatus::Check);
    }
    ret(z, m);
}

/// A rotation or shift of an operand, with the result also stored in `store`
/// when given.
pub open spec fn spec_rot<M: Memory16>(
    z: Z80State,
    m: M,
    k: Rotation,
    x: Operand8,
    store: Option<Reg8>,
) -> (Z80State, M) {
    let x0 = view8(z, m, x);
    let (r, f) = alu::spec_rotate(k, x0, z.f());
    let (z1, m1) = change8(z, m, x, r);
    let z2 = z1.with_f(f);
    match store {
        Some(w) => (z2.with_r8(w, r), m1),
        None => (z2, m1),
    }
}

pub fn rot<M: Memory16>(
    z: &mut Z80State,
    m: &mut M,
    k: Rotation,
    x: Operand8,
    store: Option<Reg8>,
)
    ensures
        (*final(z), *final(m)) == spec_rot(*old(z), *old(m), k, x, store),
{
    let x0 = get8(z, m, x);
    let (r, f) = alu::rotate(k, x0, z.reg8(Reg8::F));
    set8(z, m, x, r);
    z.set_reg8(Reg8::F, f);
    if let Some(w) = store {
        z.set_reg8(w, r);
    }
}

/// `rlca`, `rla`, `rrca`, `rra`
pub open spec fn spec_rot_a(z: Z80State, k: Rotation) -> Z80State {
    let (r, f) = alu::spec_rotate_a(k, z.r8(Reg8::A), z.f());
    z.with_r8(Reg8::A, r).with_f(f)
}

pub fn rot_a(z: &mut Z80State, k: Rotation)
    ensures
        *final(z) == spec_rot_a(*old(z), k),
{
    let a = z.reg8(Reg8::A);
    let (r, f) = alu::rotate_a(k, a, z.reg8(Reg8::F));
    z.set_reg8(Reg8::A, r);
    z.set_reg8(Reg8::F, f);
}

/// `bit n, y`
pub open spec fn spec_bit<M: Memory16>(z: Z80State, m: M, n: u8, y: Operand8) -> (Z80State, M) {
    (z.with_f(alu::spec_bit_flags(n, view8(z, m, y), z.f())), m)
}

pub fn bit<M: Memory16>(z: &mut Z80State, m: &mut M, n: u8, y: Operand8)
    requires
        n < 8,
    ensures
        (*final(z), *final(m)) == spec_bit(*old(z), *old(m), n, y),
{
    let y0 = get8(z, m, y);
    let f = alu::bit_flags(n, y0, z.reg8(Reg8::F));
    z.set_reg8(Reg8::F, f);
}

/// `set n, y` (when `value`) or `res n, y`.
pub open spec fn spec_set_res<M: Memory16>(
    z: Z80State,
    m: M,
    n: u8,
    y: Operand8,
    value: bool,
) -> (Z80State, M) {
    let y0 = view8(z, m, y);
    change8(z, m, y, if value { y0 | (1u8 << n) } else { y0 & !(1u8 << n) })
}

pub fn set_res<M: Memory16>(z: &mut Z80State, m: &mut M, n: u8, y: Operand8, value: bool)
    requires
        n < 8,
    ensures
        (*final(z), *final(m)) == spec_set_res(*old(z), *old(m), n, y, value),
{
    let mut y0 = get8(z, m, y);
    if value {
        crate::utilities::set_bit(&mut y0, n);
    } else {
        crate::utilities::clear_bit(&mut y0, n);
    }
    set8(z, m, y, y0);
}

/// `res n, y` with the result also stored in register `w`.
pub open spec fn spec_res_store<M: Memory16>(
    z: Z80State,
    m: M,
    n: u8,
    y: Operand8,
    w: Reg8,
) -> (Z80State, M) {
    let (z1, m1) = spec_set_res(z, m, n, y, false);
    (z1.with_r8(w, view8(z1, m1, y)), m1)
}

pub fn res_store<M: Memory16>(z: &mut Z80State, m: &mut M, n: u8, y: Operand8, w: Reg8)
    requires
        n < 8,
    ensures
        (*final(z), *final(m)) == spec_res_store(*old(z), *old(m), n, y, w),
{
    set_res(z, m, n, y, false);
    let y0 = get8(z, m, y);
    z.set_reg8(w, y0);
}

/// `set n, y` with a store to `w`, as this emulator does it: the bit is set
/// in `w`, and then `w` is loaded with `y`, which is left unchanged.
pub open spec fn spec_set_store<M: Memory16>(
    z: Z80State,
    m: M,
    n: u8,
    y: Operand8,
    w: Reg8,
) -> (Z80State, M) {
    let (z1, m1) = spec_set_res(z, m, n, Operand8::Reg(w), true);
    (z1.with_r8(w, view8(z1, m1, y)), m1)
}

pub fn set_store<M: Memory16>(z: &mut Z80State, m: &mut M, n: u8, y: Operand8, w: Reg8)
    requires
        n < 8,
    ensures
        (*final(z), *final(m)) == spec_set_store(*old(z), *old(m), n, y, w),
{
    set_res(z, m, n, Operand8::Reg(w), true);
    let y0 = get8(z, m, y);
    z.set_reg8(w, y0);
}

/// `rld` (when `left`) and `rrd`: rotate a BCD digit between A and `(HL)`.
pub open spec fn spec_rxd<M: Memory16>(z: Z80State, m: M, left: bool) -> (Z80State, M) {
    let hl = z.r16(Reg16::HL);
    let v = m.spec_read(hl);
    let a = z.r8(Reg8::A);
    let (mem_val, a_val) = if left {
        (((v as int % 16) * 16 + a as int % 16) as u8, ((a as int / 16) * 16 + v as int / 16) as u8)
    } else {
        (((a as int % 16) * 16 + v as int / 16) as u8, ((a as int / 16) * 16 + v as int % 16) as u8)
    };
    let m1 = m.spec_write(hl, mem_val);
    let z1 = z.with_r8(Reg8::A, a_val);
    (z1.with_f((z1.f() & (CF | XF | YF)) | alu::szp_bits(a_val)), m1)
}

pub fn rxd<M: Memory16>(z: &mut Z80State, m: &mut M, left: bool)
    ensures
        (*final(z), *final(m)) == spec_rxd(*old(z), *old(m), left),
{
    let hl = z.reg16(Reg16::HL);
    let v = m.read(hl);
    let a = z.reg8(Reg8::A);
    let (mem_val, a_val) = if left {
        ((v % 16) * 16 + a % 16, (a / 16) * 16 + v / 16)
    } else {
        ((a % 16) * 16 + v / 16, (a / 16) * 16 + v % 16)
    };
    m.write(hl, mem_val);
    z.set_reg8(Reg8::A, a_val);
    let f = z.reg8(Reg8::F);
    let nf = alu::logic_flags(a_val, 0) | (f & (CF | XF | YF));
    assert(nf == (f & (CF | XF | YF)) | alu::szp_bits(a_val)) by {
        assert(alu::spec_logic_flags(a_val, 0) == (0u8 & 0x28u8) | alu::szp_bits(a_val));
        let b = alu::szp_bits(a_val);
        let k = f & (CF | XF | YF);
        assert(((0u8 & 0x28u8) | b) | k == k | b) by (bit_vector);
    }
    z.set_reg8(Reg8::F, nf);
}

/// `ldi` (`inc` is 1) and `ldd` (`inc` is 0xFFFF): copy `(HL)` to `(DE)`,
/// step HL and DE, decrement BC; H and N cleared, P/V set iff BC is not 0.
pub open spec fn spec_ldid<M: Memory16>(z: Z80State, m: M, inc: u16) -> (Z80State, M) {
    let hl = z.r16(Reg16::HL);
    let de = z.r16(Reg16::DE);
    let bc = prev(z.r16(Reg16::BC));
    let m1 = m.spec_write(de, m.spec_read(hl));
    let z1 = z.with_r16(Reg16::HL, ((hl as int + inc as int) % 65536) as u16).with_r16(
        Reg16::DE,
        ((de as int + inc as int) % 65536) as u16,
    ).with_r16(Reg16::BC, bc);
    (z1.with_f(flag_by(z1.f() & !(HF | NF), PF, bc != 0)), m1)
}

pub fn ldid<M: Memory16>(z: &mut Z80State, m: &mut M, inc: u16)
    ensures
        (*final(z), *final(m)) == spec_ldid(*old(z), *old(m), inc),
{
    let hl = z.reg16(Reg16::HL);
    let de = z.reg16(Reg16::DE);
    let bc = z.reg16(Reg16::BC).wrapping_sub(1);
    let v = m.read(hl);
    m.write(de, v);
    z.set_reg16(Reg16::HL, hl.wrapping_add(inc));
    z.set_reg16(Reg16::DE, de.wrapping_add(inc));
    z.set_reg16(Reg16::BC, bc);
    z.clear_flag(HF | NF);
    z.set_flag_by(PF, bc != 0);
}

/// `cpi` (`inc` is 1) and `cpd` (`inc` is 0xFFFF): compare A with `(HL)`,
/// step HL, decrement BC; S, Z, H from `A - (HL)`, N set, P/V set iff BC is
/// not 0, C kept.
pub open spec fn spec_cpid<M: Memory16>(z: Z80State, m: M, inc: u16) -> (Z80State, M) {
    let hl = z.r16(Reg16::HL);
    let bc = prev(z.r16(Reg16::BC));
    let (_r, f) = alu::spec_sub8(z.r8(Reg8::A), m.spec_read(hl), false, z.f());
    let nf = (f & !(PF | CF)) | (z.f() & CF) | super::internal::bit_if(bc != 0, PF);
    let z1 = z.with_r16(Reg16::HL, ((hl as int + inc as int) % 65536) as u16).with_r16(
        Reg16::BC,
        bc,
    );
    (z1.with_f(nf), m)
}

pub fn cpid<M: Memory16>(z: &mut Z80State, m: &mut M, inc: u16)
    ensures
        (*final(z), *final(m)) == spec_cpid(*old(z), *old(m), inc),
{
    let hl = z.reg16(Reg16::HL);
    let bc = z.reg16(Reg16::BC).wrapping_sub(1);
    let v = m.read(hl);
    let f0 = z.reg8(Reg8::F);
    let (_r, f) = alu::sub8(z.reg8(Reg8::A), v, false, f0);
    let pv: u8 = if bc != 0 {
        PF
    } else {
        0
    };
    let nf = (f & !(PF | CF)) | (f0 & CF) | pv;
    z.set_reg16(Reg16::HL, hl.wrapping_add(inc));
    z.set_reg16(Reg16::BC, bc);
    z.set_reg8(Reg8::F, nf);
}

/// The block transfers and searches that repeat (`ldir`, `lddr`, `cpir`,
/// `cpdr`): after one step, if BC is not 0 (and, for a search, no match was
/// found), PC goes back to the instruction and 21 cycles are counted;
/// otherwise 16.
pub open spec fn spec_repeat(z: Z80State, search: bool) -> Z80State {
    if z.r16(Reg16::BC) != 0 && !(search && z.flag(ZF)) {
        z.with_r16(Reg16::PC, prev2(z.r16(Reg16::PC))).plus_cycles(21)
    } else {
        z.plus_cycles(16)
    }
}

fn repeat(z: &mut Z80State, search: bool)
    requires
        old(z).cycles + 21 <= u64::MAX,
    ensures
        *final(z) == spec_repeat(*old(z), search),
        final(z).cycles <= old(z).cycles + 21,
{
    if z.reg16(Reg16::BC) != 0 && !(search && z.is_set_flag(ZF)) {
        let pc = z.reg16(Reg16::PC);
        z.set_reg16(Reg16::PC, pc.wrapping_sub(2));
        z.inc_cycles(21);
    } else {
        z.inc_cycles(16);
    }
}

/// `ldir` and `lddr`
pub open spec fn spec_ldxr<M: Memory16>(z: Z80State, m: M, inc: u16) -> (Z80State, M) {
    let (z1, m1) = spec_ldid(z, m, inc);
    (spec_repeat(z1, false), m1)
}

pub fn ldxr<M: Memory16>(z: &mut Z80State, m: &mut M, inc: u16)
    requires
        cycles_ok(*old(z)),
    ensures
        (*final(z), *final(m)) == spec_ldxr(*old(z), *old(m), inc),
        final(z).cycles <= old(z).cycles + 21,
{
    ldid(z, m, inc);
    repeat(z, false);
}

/// `cpir` and `cpdr`
pub open spec fn spec_cpxr<M: Memory16>(z: Z80State, m: M, inc: u16) -> (Z80State, M) {
    let (z1, m1) = spec_cpid(z, m, inc);
    (spec_repeat(z1, true), m1)
}

pub fn cpxr<M: Memory16>(z: &mut Z80State, m: &mut M, inc: u16)
    requires
        cycles_ok(*old(z)),
    ensures
        (*final(z), *final(m)) == spec_cpxr(*old(z), *old(m), inc),
        final(z).cycles <= old(z).cycles + 21,
{
    cpid(z, m, inc);
    repeat(z, true);
}

} // verus!
