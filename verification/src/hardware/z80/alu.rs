//! The arithmetic and logic of the Z80: each function computes a result and
//! the new flag register from the operands and the old flag register.
//!
//! The documented flags (S, Z, H, P/V, N, C) are computed as the Z80 manual
//! describes; the undocumented X and Y bits of F are always kept as they were.
use vstd::prelude::*;
use super::internal::{
    bit_if, count_ones, even_parity, flag_by, flag_set, CF, HF, NF, PF, SF, ZF,
};

verus! {

/// The X and Y bits of F, which no instruction here changes.
pub const XY: u8 = 0x28;

/// Sign and zero bits for a result.
pub open spec fn sz_bits(r: u8) -> u8 {
    bit_if(r >= 0x80, SF) | bit_if(r == 0, ZF)
}

/// Sign, zero and parity bits for a result.
pub open spec fn szp_bits(r: u8) -> u8 {
    sz_bits(r) | bit_if(even_parity(r), PF)
}

/// Is `a + b + c` a signed overflow of 8 bit values with result `r`?
pub open spec fn add_overflow8(a: u8, b: u8, r: u8) -> bool {
    (a < 0x80 && b < 0x80 && r >= 0x80) || (a >= 0x80 && b >= 0x80 && r < 0x80)
}

/// Is `a - b - c` a signed overflow of 8 bit values with result `r`?
pub open spec fn sub_overflow8(a: u8, b: u8, r: u8) -> bool {
    (a < 0x80 && b >= 0x80 && r >= 0x80) || (a >= 0x80 && b < 0x80 && r < 0x80)
}

/// 8 bit addition `a + b + c` and its flags.
pub open spec fn spec_add8(a: u8, b: u8, c: bool, f: u8) -> (u8, u8) {
    let ci: int = if c { 1 } else { 0 };
    let r = ((a as int + b as int + ci) % 256) as u8;
    let h = a as int % 16 + b as int % 16 + ci >= 16;
    let carry = a as int + b as int + ci >= 256;
    (r, (f & XY) | sz_bits(r) | bit_if(h, HF) | bit_if(add_overflow8(a, b, r), PF) | bit_if(
        carry,
        CF,
    ))
}

/// 8 bit subtraction `a - b - c` and its flags.
pub open spec fn spec_sub8(a: u8, b: u8, c: bool, f: u8) -> (u8, u8) {
    let ci: int = if c { 1 } else { 0 };
    let r = ((a as int - b as int - ci + 512) % 256) as u8;
    let h = (a as int % 16) < (b as int % 16) + ci;
    let borrow = (a as int) < b as int + ci;
    (r, (f & XY) | sz_bits(r) | bit_if(h, HF) | bit_if(sub_overflow8(a, b, r), PF) | NF | bit_if(
        borrow,
        CF,
    ))
}

fn bit(b: bool, m: u8) -> (r: u8)
    ensures
        r == bit_if(b, m),
{
    if b {
        m
    } else {
        0
    }
}

fn sz(r: u8) -> (x: u8)
    ensures
        x == sz_bits(r),
{
    bit(r >= 0x80, SF) | bit(r == 0, ZF)
}

fn szp(r: u8) -> (x: u8)
    ensures
        x == szp_bits(r),
{
    sz(r) | bit(count_ones(r) % 2 == 0, PF)
}

/// Addition with carry in.
pub fn add8(a: u8, b: u8, c: bool, f: u8) -> (r: (u8, u8))
    ensures
        r == spec_add8(a, b, c, f),
{
    let ci: u16 = if c { 1 } else { 0 };
    let sum: u16 = a as u16 + b as u16 + ci;
    let r = (sum % 256) as u8;
    let h = a % 16 + b % 16 + ci as u8 >= 16;
    let ov = (a < 0x80 && b < 0x80 && r >= 0x80) || (a >= 0x80 && b >= 0x80 && r < 0x80);
    (r, (f & XY) | sz(r) | bit(h, HF) | bit(ov, PF) | bit(sum >= 256, CF))
}

/// Subtraction with borrow in.
pub fn sub8(a: u8, b: u8, c: bool, f: u8) -> (r: (u8, u8))
    ensures
        r == spec_sub8(a, b, c, f),
{
    let ci: u16 = if c { 1 } else { 0 };
    let d: u16 = a as u16 + 512 - b as u16 - ci;
    let r = (d % 256) as u8;
    let h = ((a % 16) as u16) < (b % 16) as u16 + ci;
    let ov = (a < 0x80 && b >= 0x80 && r >= 0x80) || (a >= 0x80 && b < 0x80 && r < 0x80);
    (r, (f & XY) | sz(r) | bit(h, HF) | bit(ov, PF) | NF | bit((a as u16) < b as u16 + ci, CF))
}

/// Flags after `and`, `or` or `xor` gave `r` (and sets H in addition).
pub open spec fn spec_logic_flags(r: u8, f: u8) -> u8 {
    (f & XY) | szp_bits(r)
}

pub fn logic_flags(r: u8, f: u8) -> (x: u8)
    ensures
        x == spec_logic_flags(r, f),
{
    (f & XY) | szp(r)
}

/// `inc` of an 8 bit value: result and flags (C kept).
pub open spec fn spec_inc8(x: u8, f: u8) -> (u8, u8) {
    let r = ((x as int + 1) % 256) as u8;
    (r, (f & (XY | CF)) | sz_bits(r) | bit_if(x % 16 == 15, HF) | bit_if(x == 0x7F, PF))
}

pub fn inc8(x: u8, f: u8) -> (r: (u8, u8))
    ensures
        r == spec_inc8(x, f),
{
    let r = x.wrapping_add(1);
    (r, (f & (XY | CF)) | sz(r) | bit(x % 16 == 15, HF) | bit(x == 0x7F, PF))
}

/// `dec` of an 8 bit value: result and flags (C kept).
pub open spec fn spec_dec8(x: u8, f: u8) -> (u8, u8) {
    let r = ((x as int + 255) % 256) as u8;
    (r, (f & (XY | CF)) | sz_bits(r) | bit_if(x % 16 == 0, HF) | bit_if(x == 0x80, PF) | NF)
}

pub fn dec8(x: u8, f: u8) -> (r: (u8, u8))
    ensures
        r == spec_dec8(x, f),
{
    let r = x.wrapping_sub(1);
    (r, (f & (XY | CF)) | sz(r) | bit(x % 16 == 0, HF) | bit(x == 0x80, PF) | NF)
}

/// 16 bit `add`: only H, N and C change.
pub open spec fn spec_add16(x: u16, y: u16, f: u8) -> (u16, u8) {
    let r = ((x as int + y as int) % 65536) as u16;
    (r, (f & (XY | SF | ZF | PF)) | bit_if(x as int % 4096 + y as int % 4096 >= 4096, HF)
        | bit_if(x as int + y as int >= 65536, CF))
}

pub fn add16(x: u16, y: u16, f: u8) -> (r: (u16, u8))
    ensures
        r == spec_add16(x, y, f),
{
    let sum: u32 = x as u32 + y as u32;
    ((sum % 65536) as u16, (f & (XY | SF | ZF | PF)) | bit(x % 4096 + y % 4096 >= 4096, HF) | bit(
        sum >= 65536,
        CF,
    ))
}

/// Sign and zero bits for a 16 bit result.
pub open spec fn sz16_bits(r: u16) -> u8 {
    bit_if(r >= 0x8000, SF) | bit_if(r == 0, ZF)
}

fn sz16(r: u16) -> (x: u8)
    ensures
        x == sz16_bits(r),
{
    bit(r >= 0x8000, SF) | bit(r == 0, ZF)
}

/// 16 bit `adc`: all documented flags change.
pub open spec fn spec_adc16(x: u16, y: u16, c: bool, f: u8) -> (u16, u8) {
    let ci: int = if c { 1 } else { 0 };
    let r = ((x as int + y as int + ci) % 65536) as u16;
    let ov = (x < 0x8000 && y < 0x8000 && r >= 0x8000) || (x >= 0x8000 && y >= 0x8000 && r
        < 0x8000);
    (r, (f & XY) | sz16_bits(r) | bit_if(x as int % 4096 + y as int % 4096 + ci >= 4096, HF)
        | bit_if(ov, PF) | bit_if(x as int + y as int + ci >= 65536, CF))
}

pub fn adc16(x: u16, y: u16, c: bool, f: u8) -> (r: (u16, u8))
    ensures
        r == spec_adc16(x, y, c, f),
{
    let ci: u32 = if c { 1 } else { 0 };
    let sum: u32 = x as u32 + y as u32 + ci;
    let r = (sum % 65536) as u16;
    let ov = (x < 0x8000 && y < 0x8000 && r >= 0x8000) || (x >= 0x8000 && y >= 0x8000 && r
        < 0x8000);
    (r, (f & XY) | sz16(r) | bit(
        (x % 4096) as u32 + (y % 4096) as u32 + ci >= 4096,
        HF,
    ) | bit(ov, PF) | bit(sum >= 65536, CF))
}

/// 16 bit `sbc`: all documented flags change.
pub open spec fn spec_sbc16(x: u16, y: u16, c: bool, f: u8) -> (u16, u8) {
    let ci: int = if c { 1 } else { 0 };
    let r = ((x as int - y as int - ci + 131072) % 65536) as u16;
    let ov = (x < 0x8000 && y >= 0x8000 && r >= 0x8000) || (x >= 0x8000 && y < 0x8000 && r
        < 0x8000);
    (r, (f & XY) | sz16_bits(r) | bit_if((x as int % 4096) < (y as int % 4096) + ci, HF)
        | bit_if(ov, PF) | NF | bit_if((x as int) < y as int + ci, CF))
}

pub fn sbc16(x: u16, y: u16, c: bool, f: u8) -> (r: (u16, u8))
    ensures
        r == spec_sbc16(x, y, c, f),
{
    let ci: u32 = if c { 1 } else { 0 };
    let d: u32 = x as u32 + 131072 - y as u32 - ci;
    let r = (d % 65536) as u16;
    let ov = (x < 0x8000 && y >= 0x8000 && r >= 0x8000) || (x >= 0x8000 && y < 0x8000 && r
        < 0x8000);
    (r, (f & XY) | sz16(r) | bit(
        ((x % 4096) as u32) < (y % 4096) as u32 + ci,
        HF,
    ) | bit(ov, PF) | NF | bit((x as u32) < y as u32 + ci, CF))
}

/// The kinds of rotate and shift on a register or memory byte.
#[derive(Clone, Copy, Debug, PartialEq, Eq, Structural)]
pub enum Rotation {
    Rlc,
    Rl,
    Rrc,
    Rr,
    Sla,
    Sra,
    Sll,
    Srl,
}

/// The value a rotation or shift gives, with `c` the carry flag before it.
pub open spec fn spec_rotate_value(k: Rotation, x: u8, c: bool) -> u8 {
    let ci: int = if c { 1 } else { 0 };
    (match k {
        Rotation::Rlc => (x as int * 2) % 256 + x as int / 128,
        Rotation::Rl => (x as int * 2) % 256 + ci,
        Rotation::Rrc => x as int / 2 + (x as int % 2) * 128,
        Rotation::Rr => x as int / 2 + ci * 128,
        Rotation::Sla => (x as int * 2) % 256,
        Rotation::Sra => x as int / 2 + (x as int / 128) * 128,
        Rotation::Sll => (x as int * 2) % 256 + 1,
        Rotation::Srl => x as int / 2,
    }) as u8
}

/// The carry a rotation or shift produces: the bit shifted out.
pub open spec fn spec_rotate_carry(k: Rotation, x: u8) -> bool {
    match k {
        Rotation::Rlc | Rotation::Rl | Rotation::Sla | Rotation::Sll => x >= 0x80,
        _ => x % 2 == 1,
    }
}

/// A rotation or shift of a register or memory byte (the CB group): result,
/// and flags S, Z, P from the result, H and N cleared, C the bit shifted out.
pub open spec fn spec_rotate(k: Rotation, x: u8, f: u8) -> (u8, u8) {
    let r = spec_rotate_value(k, x, flag_set(f, CF));
    (r, (f & XY) | szp_bits(r) | bit_if(spec_rotate_carry(k, x), CF))
}

pub fn rotate_value(k: Rotation, x: u8, c: bool) -> (r: u8)
    ensures
        r == spec_rotate_value(k, x, c),
{
    let ci: u8 = if c { 1 } else { 0 };
    match k {
        Rotation::Rlc => x.wrapping_mul(2) + x / 128,
        Rotation::Rl => x.wrapping_mul(2) + ci,
        Rotation::Rrc => x / 2 + (x % 2) * 128,
        Rotation::Rr => x / 2 + ci * 128,
        Rotation::Sla => x.wrapping_mul(2),
        Rotation::Sra => x / 2 + (x / 128) * 128,
        Rotation::Sll => x.wrapping_mul(2) + 1,
        Rotation::Srl => x / 2,
    }
}

pub fn rotate(k: Rotation, x: u8, f: u8) -> (r: (u8, u8))
    ensures
        r == spec_rotate(k, x, f),
{
    let c = (f & CF) == CF;
    let r = rotate_value(k, x, c);
    let carry = match k {
        Rotation::Rlc | Rotation::Rl | Rotation::Sla | Rotation::Sll => x >= 0x80,
        _ => x % 2 == 1,
    };
    (r, (f & XY) | szp(r) | bit(carry, CF))
}

/// The accumulator rotations (`rlca`, `rla`, `rrca`, `rra`): only H, N and C
/// change.
pub open spec fn spec_rotate_a(k: Rotation, a: u8, f: u8) -> (u8, u8) {
    let r = spec_rotate_value(k, a, flag_set(f, CF));
    (r, (f & (XY | SF | ZF | PF)) | bit_if(spec_rotate_carry(k, a), CF))
}

pub fn rotate_a(k: Rotation, a: u8, f: u8) -> (r: (u8, u8))
    ensures
        r == spec_rotate_a(k, a, f),
{
    let c = (f & CF) == CF;
    let r = rotate_value(k, a, c);
    let carry = match k {
        Rotation::Rlc | Rotation::Rl | Rotation::Sla | Rotation::Sll => a >= 0x80,
        _ => a % 2 == 1,
    };
    (r, (f & (XY | SF | ZF | PF)) | bit(carry, CF))
}

/// Flags after `bit n, x`: Z and P set iff the bit is clear, H set, N
/// cleared, S set iff `n` is 7 and the bit is set; C kept.
pub open spec fn spec_bit_flags(n: u8, x: u8, f: u8) -> u8 {
    let set = x & (1u8 << n) != 0;
    (f & (XY | CF)) | bit_if(!set, ZF | PF) | HF | bit_if(n == 7 && set, SF)
}

pub fn bit_flags(n: u8, x: u8, f: u8) -> (r: u8)
    requires
        n < 8,
    ensures
        r == spec_bit_flags(n, x, f),
{
    let set = x & (1u8 << n) != 0;
    (f & (XY | CF)) | bit(!set, ZF | PF) | HF | bit(n == 7 && set, SF)
}

/// `daa`: the decimal adjustment of A after a BCD addition or subtraction,
/// following the table in Young's "The Undocumented Z80 Documented".
pub open spec fn spec_daa_diff(a: u8, cf: bool, hf: bool) -> u8 {
    let hi = a / 16;
    let lo = a % 16;
    if !cf && hi <= 9 && !hf && lo <= 9 {
        0
    } else if !cf && hi <= 9 && hf && lo <= 9 {
        0x6
    } else if !cf && hi <= 8 && lo >= 0xA {
        0x6
    } else if !cf && hi >= 0xA && !hf && lo <= 9 {
        0x60
    } else if cf && !hf && lo <= 9 {
        0x60
    } else {
        0x66
    }
}

pub open spec fn spec_daa_carry(a: u8, cf: bool) -> bool {
    let hi = a / 16;
    let lo = a % 16;
    !((!cf && hi <= 9 && lo <= 9) || (!cf && hi <= 8 && lo >= 0xA))
}

pub open spec fn spec_daa_half(a: u8, nf: bool, hf: bool) -> bool {
    let lo = a % 16;
    (!nf && lo >= 0xA) || (nf && hf && lo <= 5)
}

/// The new A and F after `daa`.
pub open spec fn spec_daa(a: u8, f: u8) -> (u8, u8) {
    let cf = flag_set(f, CF);
    let hf = flag_set(f, HF);
    let nf = flag_set(f, NF);
    let diff = spec_daa_diff(a, cf, hf);
    let r = if nf {
        ((a as int - diff as int + 256) % 256) as u8
    } else {
        ((a as int + diff as int) % 256) as u8
    };
    (r, flag_by(
        flag_by(
            flag_by(flag_by(flag_by(f, PF, even_parity(r)), ZF, r == 0), SF, r >= 0x80),
            CF,
            spec_daa_carry(a, cf),
        ),
        HF,
        spec_daa_half(a, nf, hf),
    ))
}

fn with_flag(f: u8, mask: u8, b: bool) -> (r: u8)
    ensures
        r == flag_by(f, mask, b),
{
    if b {
        f | mask
    } else {
        f & !mask
    }
}

fn daa_diff(a: u8, cf: bool, hf: bool) -> (r: u8)
    ensures
        r == spec_daa_diff(a, cf, hf),
{
    let hi = a / 16;
    let lo = a % 16;
    if !cf && hi <= 9 && !hf && lo <= 9 {
        0
    } else if !cf && hi <= 9 && hf && lo <= 9 {
        0x6
    } else if !cf && hi <= 8 && lo >= 0xA {
        0x6
    } else if !cf && hi >= 0xA && !hf && lo <= 9 {
        0x60
    } else if cf && !hf && lo <= 9 {
        0x60
    } else {
        0x66
    }
}

pub fn daa(a: u8, f: u8) -> (r: (u8, u8))
    ensures
        r == spec_daa(a, f),
{
    let cf = (f & CF) == CF;
    let hf = (f & HF) == HF;
    let nf = (f & NF) == NF;
    let hi = a / 16;
    let lo = a % 16;
    let diff = daa_diff(a, cf, hf);
    let new_cf = !((!cf && hi <= 9 && lo <= 9) || (!cf && hi <= 8 && lo >= 0xA));
    let new_hf = (!nf && lo >= 0xA) || (nf && hf && lo <= 5);
    let r = if nf {
        a.wrapping_sub(diff)
    } else {
        a.wrapping_add(diff)
    };
    assert(r == spec_daa(a, f).0);
    assert(new_cf == spec_daa_carry(a, cf));
    assert(new_hf == spec_daa_half(a, nf, hf));
    let f1 = with_flag(f, PF, count_ones(r) % 2 == 0);
    let f2 = with_flag(f1, ZF, r == 0);
    let f3 = with_flag(f2, SF, r >= 0x80);
    let f4 = with_flag(f3, CF, new_cf);
    (r, with_flag(f4, HF, new_hf))
}

} // verus!
