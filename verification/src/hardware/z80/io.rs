//! Z80 instructions that do input or output.
use vstd::prelude::*;
use crate::hardware::io16::Io16;
use crate::hardware::memory16::Memory16;
use crate::utilities::to16;
use super::alu;
use super::internal::{
    flag_by, word, InterruptStatus, Reg16, Reg8, Z80State, CF, HF, NF, XF, YF, ZF,
};
use super::mem::prev2;
use super::no::cycles_ok;
use super::operand::{get8, view8, Operand8};

verus! {

broadcast use super::internal::group_z80_state;

/// `in x, (c)` as this emulator does it: the port's low byte is the second
/// operand and its high byte the register being loaded; no flag changes.
pub open spec fn spec_in_c<I: Io16>(z: Z80State, io: I, x: Reg8, y: Reg8) -> (Z80State, I) {
    let address = word(z.r8(y), z.r8(x));
    (z.with_r8(x, io.spec_input(address)), io.spec_after_input(address))
}

pub fn in_c<I: Io16>(z: &mut Z80State, io: &mut I, x: Reg8, y: Reg8)
    ensures
        (*final(z), *final(io)) == spec_in_c(*old(z), *old(io), x, y),
{
    let lo = z.reg8(y);
    let hi = z.reg8(x);
    let val = io.input(to16(lo, hi));
    z.set_reg8(x, val);
}

/// `in x, (n)`: the port's low byte is `n`, its high byte `x`.
pub open spec fn spec_in_n<I: Io16>(z: Z80State, io: I, x: Reg8, n: u8) -> (Z80State, I) {
    let address = word(n, z.r8(x));
    (z.with_r8(x, io.spec_input(address)), io.spec_after_input(address))
}

pub fn in_n<I: Io16>(z: &mut Z80State, io: &mut I, x: Reg8, n: u8)
    ensures
        (*final(z), *final(io)) == spec_in_n(*old(z), *old(io), x, n),
{
    let hi = z.reg8(x);
    let val = io.input(to16(n, hi));
    z.set_reg8(x, val);
}

/// `in (c)`: input from port `(B, x)`, setting S, Z, P from the byte and
/// clearing H and N; no register is loaded.
pub open spec fn spec_in_f<I: Io16>(z: Z80State, io: I, x: Reg8) -> (Z80State, I) {
    let address = word(z.r8(x), z.r8(Reg8::B));
    let v = io.spec_input(address);
    (z.with_f((z.f() & (CF | XF | YF)) | alu::szp_bits(v)), io.spec_after_input(address))
}

pub fn in_f<I: Io16>(z: &mut Z80State, io: &mut I, x: Reg8)
    ensures
        (*final(z), *final(io)) == spec_in_f(*old(z), *old(io), x),
{
    let lo = z.reg8(x);
    let hi = z.reg8(Reg8::B);
    let v = io.input(to16(lo, hi));
    let f = z.reg8(Reg8::F);
    let nf = (f & (CF | XF | YF)) | alu::logic_flags(v, 0);
    assert(nf == (f & (CF | XF | YF)) | alu::szp_bits(v)) by {
        let b = alu::szp_bits(v);
        let k = f & (CF | XF | YF);
        assert(k | ((0u8 & 0x28u8) | b) == k | b) by (bit_vector);
    }
    z.set_reg8(Reg8::F, nf);
}

/// `ini` (`inc` is 1) and `ind` (`inc` is 0xFFFF): input from port BC to
/// `(HL)`, step HL, decrement B; Z set iff B became 0, N set.
pub open spec fn spec_inid<M: Memory16, I: Io16>(z: Z80State, m: M, io: I, inc: u16) -> (
    Z80State,
    M,
    I,
) {
    let bc = z.r16(Reg16::BC);
    let hl = z.r16(Reg16::HL);
    let v = io.spec_input(bc);
    let new_b = ((z.r8(Reg8::B) as int + 255) % 256) as u8;
    let z1 = z.with_r16(Reg16::HL, ((hl as int + inc as int) % 65536) as u16).with_r8(
        Reg8::B,
        new_b,
    );
    let z2 = z1.with_f(flag_by(z1.f(), ZF, new_b == 0));
    (z2.with_f(z2.f() | NF), m.spec_write(hl, v), io.spec_after_input(bc))
}

pub fn inid<M: Memory16, I: Io16>(z: &mut Z80State, m: &mut M, io: &mut I, inc: u16)
    ensures
        (*final(z), *final(m), *final(io)) == spec_inid(*old(z), *old(m), *old(io), inc),
{
    let bc = z.reg16(Reg16::BC);
    let hl = z.reg16(Reg16::HL);
    let v = io.input(bc);
    m.write(hl, v);
    z.set_reg16(Reg16::HL, hl.wrapping_add(inc));
    let new_b = z.reg8(Reg8::B).wrapping_sub(1);
    z.set_reg8(Reg8::B, new_b);
    z.set_zero(new_b);
    z.set_flag(NF);
}

/// `inir` and `indr`: one step, then repeat while BC is not 0.
pub open spec fn spec_inxr<M: Memory16, I: Io16>(z: Z80State, m: M, io: I, inc: u16) -> (
    Z80State,
    M,
    I,
) {
    let (z1, m1, io1) = spec_inid(z, m, io, inc);
    (super::mem::spec_repeat(z1, false), m1, io1)
}

pub fn inxr<M: Memory16, I: Io16>(z: &mut Z80State, m: &mut M, io: &mut I, inc: u16)
    requires
        cycles_ok(*old(z)),
    ensures
        (*final(z), *final(m), *final(io)) == spec_inxr(*old(z), *old(m), *old(io), inc),
        final(z).cycles <= old(z).cycles + 21,
{
    inid(z, m, io, inc);
    if z.reg16(Reg16::BC) != 0 {
        let pc = z.reg16(Reg16::PC);
        z.set_reg16(Reg16::PC, pc.wrapping_sub(2));
        z.inc_cycles(21);
    } else {
        z.inc_cycles(16);
    }
}

/// After an output, interrupts are checked before the next instruction (the
/// output may have raised one).
pub open spec fn after_output(z: Z80State) -> Z80State {
    Z80State { interrupt_status: InterruptStatus::Check, ..z }
}

/// `out (c), y`: output `y` at port `(B, x)`.
pub open spec fn spec_out_c<M: Memory16, I: Io16>(
    z: Z80State,
    m: M,
    io: I,
    x: Reg8,
    y: Operand8,
) -> (Z80State, I) {
    let address = word(z.r8(x), z.r8(Reg8::B));
    (after_output(z), io.spec_output(address, view8(z, m, y)))
}

pub fn out_c<M: Memory16, I: Io16>(
    z: &mut Z80State,
    m: &mut M,
    io: &mut I,
    x: Reg8,
    y: Operand8,
)
    ensures
        (*final(z), *final(io)) == spec_out_c(*old(z), *old(m), *old(io), x, y),
        *final(m) == *old(m),
{
    let lo = z.reg8(x);
    let hi = z.reg8(Reg8::B);
    let val = get8(z, m, y);
    io.output(to16(lo, hi), val);
    z.set_interrupt_status(InterruptStatus::Check);
}

/// `out (n), y`: output `y` at port `(A, n)`.
pub open spec fn spec_out_n<I: Io16>(z: Z80State, io: I, n: u8, y: Reg8) -> (Z80State, I) {
    let address = word(n, z.r8(Reg8::A));
    (after_output(z), io.spec_output(address, z.r8(y)))
}

pub fn out_n<I: Io16>(z: &mut Z80State, io: &mut I, n: u8, y: Reg8)
    ensures
        (*final(z), *final(io)) == spec_out_n(*old(z), *old(io), n, y),
{
    let hi = z.reg8(Reg8::A);
    let val = z.reg8(y);
    io.output(to16(n, hi), val);
    z.set_interrupt_status(InterruptStatus::Check);
}

/// `outi` (`inc` is 1) and `outd` (`inc` is 0xFFFF): decrement B, output
/// `(HL)` at port BC, step HL; Z set iff B became 0, N set.
pub open spec fn spec_outid<M: Memory16, I: Io16>(z: Z80State, m: M, io: I, inc: u16) -> (
    Z80State,
    I,
) {
    let hl = z.r16(Reg16::HL);
    let new_b = ((z.r8(Reg8::B) as int + 255) % 256) as u8;
    let z1 = z.with_r8(Reg8::B, new_b);
    let io1 = io.spec_output(z1.r16(Reg16::BC), m.spec_read(hl));
    let z2 = z1.with_r16(Reg16::HL, ((hl as int + inc as int) % 65536) as u16);
    let z3 = z2.with_f(flag_by(z2.f(), ZF, new_b == 0));
    (after_output(z3.with_f(z3.f() | NF)), io1)
}

pub fn outid<M: Memory16, I: Io16>(z: &mut Z80State, m: &mut M, io: &mut I, inc: u16)
    ensures
        (*final(z), *final(io)) == spec_outid(*old(z), *old(m), *old(io), inc),
        *final(m) == *old(m),
{
    let hl = z.reg16(Reg16::HL);
    let new_b = z.reg8(Reg8::B).wrapping_sub(1);
    z.set_reg8(Reg8::B, new_b);
    let v = m.read(hl);
    let bc = z.reg16(Reg16::BC);
    io.output(bc, v);
    z.set_reg16(Reg16::HL, hl.wrapping_add(inc));
    z.set_zero(new_b);
    z.set_flag(NF);
    z.set_interrupt_status(InterruptStatus::Check);
}

/// `otir` and `otdr`: one step, then repeat while B is not 0.
pub open spec fn spec_otxr<M: Memory16, I: Io16>(z: Z80State, m: M, io: I, inc: u16) -> (
    Z80State,
    I,
) {
    let (z1, io1) = spec_outid(z, m, io, inc);
    if z1.r8(Reg8::B) != 0 {
        (z1.with_r16(Reg16::PC, prev2(z1.r16(Reg16::PC))).plus_cycles(21), io1)
    } else {
        (z1.plus_cycles(16), io1)
    }
}

pub fn otxr<M: Memory16, I: Io16>(z: &mut Z80State, m: &mut M, io: &mut I, inc: u16)
    requires
        cycles_ok(*old(z)),
    ensures
        (*final(z), *final(io)) == spec_otxr(*old(z), *old(m), *old(io), inc),
        *final(m) == *old(m),
        final(z).cycles <= old(z).cycles + 21,
{
    outid(z, m, io, inc);
    if z.reg8(Reg8::B) != 0 {
        let pc = z.reg16(Reg16::PC);
        z.set_reg16(Reg16::PC, pc.wrapping_sub(2));
        z.inc_cycles(21);
    } else {
        z.inc_cycles(16);
    }
}

} // verus!
