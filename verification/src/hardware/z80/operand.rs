//! Operands of Z80 instructions: registers, immediate values and memory
//! locations, and how an instruction reads and writes them.
use vstd::prelude::*;
use crate::hardware::memory16::Memory16;
use crate::utilities::{to16, to8};
use super::internal::{hi_byte, lo_byte, word, Reg16, Reg8, Z80State};

verus! {

/// An 8 bit operand.
#[derive(Clone, Copy, Debug, PartialEq, Eq, Structural)]
pub enum Operand8 {
    /// An 8 bit register.
    Reg(Reg8),
    /// An immediate byte.
    Imm(u8),
    /// The byte addressed by a 16 bit register, as in `(HL)`.
    Address(Reg16),
    /// The byte at a fixed address, as in `(nn)`.
    AddressImm(u16),
    /// The byte at a register plus a signed displacement, as in `(IX+d)`.
    Shift(Reg16, i8),
}

/// A 16 bit operand.
#[derive(Clone, Copy, Debug, PartialEq, Eq, Structural)]
pub enum Operand16 {
    /// A 16 bit register.
    Reg(Reg16),
    /// An immediate word.
    Imm(u16),
    /// The little endian word at a fixed address, as in `(nn)`.
    AddressImm(u16),
    /// The little endian word addressed by a register, as in `(SP)`.
    Address(Reg16),
}

/// `x + d` on 16 bit addresses, wrapping.
pub open spec fn offset(x: u16, d: i8) -> u16 {
    ((x as int + d as int + 65536) % 65536) as u16
}

/// `x + 1` on 16 bit addresses, wrapping.
pub open spec fn next(x: u16) -> u16 {
    ((x as int + 1) % 65536) as u16
}

/// The memory address an 8 bit memory operand refers to.
pub open spec fn address8(z: Z80State, op: Operand8) -> u16 {
    match op {
        Operand8::Address(r) => z.r16(r),
        Operand8::AddressImm(a) => a,
        Operand8::Shift(r, d) => offset(z.r16(r), d),
        _ => 0,
    }
}

/// Is the operand a register or a memory location (something an instruction
/// can write)?
pub open spec fn changeable8(op: Operand8) -> bool {
    !(op is Imm)
}

pub open spec fn changeable16(op: Operand16) -> bool {
    !(op is Imm)
}

/// The value of an 8 bit operand.
pub open spec fn view8<M: Memory16>(z: Z80State, m: M, op: Operand8) -> u8 {
    match op {
        Operand8::Reg(r) => z.r8(r),
        Operand8::Imm(v) => v,
        _ => m.spec_read(address8(z, op)),
    }
}

/// The machine after writing `v` to an 8 bit operand.
pub open spec fn change8<M: Memory16>(z: Z80State, m: M, op: Operand8, v: u8) -> (Z80State, M) {
    match op {
        Operand8::Reg(r) => (z.with_r8(r, v), m),
        Operand8::Imm(_) => (z, m),
        _ => (z, m.spec_write(address8(z, op), v)),
    }
}

/// The little endian word in memory at `a`.
pub open spec fn read_word<M: Memory16>(m: M, a: u16) -> u16 {
    word(m.spec_read(a), m.spec_read(next(a)))
}

/// Memory after writing the little endian word `v` at `a`: low byte first.
pub open spec fn write_word<M: Memory16>(m: M, a: u16, v: u16) -> M {
    m.spec_write(a, lo_byte(v)).spec_write(next(a), hi_byte(v))
}

/// The value of a 16 bit operand.
pub open spec fn view16<M: Memory16>(z: Z80State, m: M, op: Operand16) -> u16 {
    match op {
        Operand16::Reg(r) => z.r16(r),
        Operand16::Imm(v) => v,
        Operand16::AddressImm(a) => read_word(m, a),
        Operand16::Address(r) => read_word(m, z.r16(r)),
    }
}

/// The machine after writing `v` to a 16 bit operand.
pub open spec fn change16<M: Memory16>(z: Z80State, m: M, op: Operand16, v: u16) -> (
    Z80State,
    M,
) {
    match op {
        Operand16::Reg(r) => (z.with_r16(r, v), m),
        Operand16::Imm(_) => (z, m),
        Operand16::AddressImm(a) => (z, write_word(m, a, v)),
        Operand16::Address(r) => (z, write_word(m, z.r16(r), v)),
    }
}

/// The address of a memory operand.
pub fn operand_address(z: &Z80State, op: Operand8) -> (a: u16)
    ensures
        a == address8(*z, op),
{
    match op {
        Operand8::Address(r) => z.reg16(r),
        Operand8::AddressImm(a) => a,
        Operand8::Shift(r, d) => {
            let x = z.reg16(r);
            let dd: u16 = if d < 0 {
                (65536 + d as i32) as u16
            } else {
                d as u16
            };
            x.wrapping_add(dd)
        },
        _ => 0,
    }
}

/// Read an 8 bit operand.
pub fn get8<M: Memory16>(z: &Z80State, m: &mut M, op: Operand8) -> (r: u8)
    ensures
        r == view8(*z, *old(m), op),
        *final(m) == *old(m),
{
    match op {
        Operand8::Reg(r) => z.reg8(r),
        Operand8::Imm(v) => v,
        _ => {
            let a = operand_address(z, op);
            m.read(a)
        },
    }
}

/// Write an 8 bit operand.
pub fn set8<M: Memory16>(z: &mut Z80State, m: &mut M, op: Operand8, v: u8)
    ensures
        (*final(z), *final(m)) == change8(*old(z), *old(m), op, v),
{
    match op {
        Operand8::Reg(r) => z.set_reg8(r, v),
        Operand8::Imm(_) => {},
        _ => {
            let a = operand_address(z, op);
            m.write(a, v);
        },
    }
}

/// Read the little endian word at `a`.
pub fn get_word<M: Memory16>(m: &mut M, a: u16) -> (r: u16)
    ensures
        r == read_word(*old(m), a),
        *final(m) == *old(m),
{
    let lo = m.read(a);
    let hi = m.read(a.wrapping_add(1));
    to16(lo, hi)
}

/// Write the little endian word `v` at `a`.
pub fn set_word<M: Memory16>(m: &mut M, a: u16, v: u16)
    ensures
        *final(m) == write_word(*old(m), a, v),
{
    let (lo, hi) = to8(v);
    m.write(a, lo);
    m.write(a.wrapping_add(1), hi);
}

/// Read a 16 bit operand.
pub fn get16<M: Memory16>(z: &Z80State, m: &mut M, op: Operand16) -> (r: u16)
    ensures
        r == view16(*z, *old(m), op),
        *final(m) == *old(m),
{
    match op {
        Operand16::Reg(r) => z.reg16(r),
        Operand16::Imm(v) => v,
        Operand16::AddressImm(a) => get_word(m, a),
        Operand16::Address(r) => {
            let a = z.reg16(r);
            get_word(m, a)
        },
    }
}

/// Write a 16 bit operand.
pub fn set16<M: Memory16>(z: &mut Z80State, m: &mut M, op: Operand16, v: u16)
    ensures
        (*final(z), *final(m)) == change16(*old(z), *old(m), op, v),
{
    match op {
        Operand16::Reg(r) => z.set_reg16(r, v),
        Operand16::Imm(_) => {},
        Operand16::AddressImm(a) => set_word(m, a, v),
        Operand16::Address(r) => {
            let a = z.reg16(r);
            set_word(m, a, v);
        },
    }
}

} // verus!
