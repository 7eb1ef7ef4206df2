//! Laws of the Z80's instructions: what one instruction undoes of another,
//! and what the flags report.
use vstd::prelude::*;
use super::alu::{spec_add8, spec_dec8, spec_inc8, spec_rotate, spec_rotate_value, Rotation, spec_daa, spec_daa_carry, spec_daa_diff, spec_sub8, sz_bits, XY};
use super::internal::{bit_if, flag_by, flag_set, hi_byte, HF, PF, lo_byte, word, Reg16, Reg8, Z80State, CF, NF, ZF};
use super::mem::{spec_call, spec_cp, spec_ex, spec_ldid, spec_logic, spec_pop, spec_push, spec_ret, Logic};
use super::no::{spec_check, spec_djnz, spec_jr, ConditionCode, spec_cpl, spec_dec16, spec_exx, spec_inc16, spec_neg};
use super::decode::{decoded_iy_for_ix, spec_decode_index_cb, spec_decode_main};
use super::operand::Operand16;
use super::operand::Operand8;

verus! {

broadcast use super::internal::group_z80_state;

/// Writing a register with the value it holds changes nothing.
proof fn lemma_with_r16_same(z: Z80State, r: Reg16)
    ensures
        z.with_r16(r, z.r16(r)) == z,
{
    assert(z.with_r16(r, z.r16(r)).registers =~= z.registers);
}

/// `exx` twice leaves the machine as it was.
pub proof fn lemma_exx_involution(z: Z80State)
    ensures
        spec_exx(spec_exx(z)) == z,
{
    let z2 = spec_exx(spec_exx(z));
    assert(z2.registers =~= z.registers);
}

/// `ex` of two register pairs twice leaves the machine as it was.
pub proof fn lemma_ex_registers_involution<M: super::super::memory16::Memory16>(
    z: Z80State,
    m: M,
    x: Reg16,
    y: Reg16,
)
    ensures
        ({
            let (z1, m1) = spec_ex(z, m, Operand16::Reg(x), y);
            spec_ex(z1, m1, Operand16::Reg(x), y)
        }) == (z, m),
{
    let (z1, m1) = spec_ex(z, m, Operand16::Reg(x), y);
    let (z2, m2) = spec_ex(z1, m1, Operand16::Reg(x), y);
    assert(z2.registers =~= z.registers);
}

/// `cpl` twice gives back the accumulator.
pub proof fn lemma_cpl_twice(z: Z80State)
    ensures
        spec_cpl(spec_cpl(z)).r8(Reg8::A) == z.r8(Reg8::A),
{
    let a = z.r8(Reg8::A);
    assert(!(!a) == a) by (bit_vector);
}

/// `neg` twice gives back the accumulator.
pub proof fn lemma_neg_twice(z: Z80State)
    ensures
        spec_neg(spec_neg(z)).r8(Reg8::A) == z.r8(Reg8::A),
{
}

/// `inc` then `dec` of a register pair leaves the machine as it was.
pub proof fn lemma_inc16_dec16(z: Z80State, x: Reg16)
    ensures
        spec_dec16(spec_inc16(z, x), x) == z,
{
    lemma_with_r16_same(z, x);
}

/// Subtracting what was added gives back the first operand.
pub proof fn lemma_sub_undoes_add(a: u8, b: u8, f: u8, g: u8)
    ensures
        spec_sub8(spec_add8(a, b, false, f).0, b, false, g).0 == a,
{
}

/// Which documented flags the flag byte of an 8 bit subtraction reports.
proof fn lemma_sub_flag_byte(f0: u8, r: u8, h: bool, p: bool, c: bool)
    ensures
        ({
            let f = (f0 & XY) | sz_bits(r) | bit_if(h, HF) | bit_if(p, PF) | NF | bit_if(c, CF);
            &&& (f & ZF == ZF) == (r == 0)
            &&& (f & CF == CF) == c
            &&& f & NF == NF
        }),
{
    assert({
        let f = (f0 & XY) | sz_bits(r) | bit_if(h, HF) | bit_if(p, PF) | NF | bit_if(c, CF);
        &&& (f & ZF == ZF) == (r == 0)
        &&& (f & CF == CF) == c
        &&& f & NF == NF
    }) by (bit_vector);
}

/// `cp` sets the zero flag exactly when the operand equals the accumulator,
/// the carry flag exactly when it is bigger, and always the subtract flag;
/// it changes no register but F.
pub proof fn lemma_cp_flags<M: super::super::memory16::Memory16>(z: Z80State, m: M, n: u8)
    ensures
        ({
            let (z1, m1) = spec_cp(z, m, Operand8::Imm(n));
            &&& flag_set(z1.f(), ZF) <==> z.r8(Reg8::A) == n
            &&& flag_set(z1.f(), CF) <==> z.r8(Reg8::A) < n
            &&& flag_set(z1.f(), NF)
            &&& z1.r8(Reg8::A) == z.r8(Reg8::A)
            &&& m1 == m
        }),
{
    let a = z.r8(Reg8::A);
    let r = ((a as int - n as int + 512) % 256) as u8;
    let h = (a as int % 16) < (n as int % 16);
    lemma_sub_flag_byte(z.f(), r, h, super::alu::sub_overflow8(a, n, r), (a as int) < n as int);
}

/// On flat memory, `pop` gives back what `push` pushed, and the stack
/// pointer is where it was.
pub proof fn lemma_push_pop(z: Z80State, m: [u8; 0x10000], x: Reg16, y: Reg16)
    requires
        x != Reg16::SP,
    ensures
        ({
            let (z1, m1) = spec_push(z, m, x);
            let (z2, m2) = spec_pop(z1, m1, y);
            &&& z2.r16(y) == (if y == Reg16::SP {
                ((z.r16(Reg16::SP) as int) % 65536) as u16
            } else {
                z.r16(x)
            })
            &&& y != Reg16::SP ==> z2.r16(Reg16::SP) == z.r16(Reg16::SP)
            &&& m2 == m1
        }),
{
    let v = z.r16(x);
    assert(word(lo_byte(v), hi_byte(v)) == v);
}

/// On flat memory, `ret` after `call` comes back to the instruction after
/// the call, with the stack pointer where it was.
pub proof fn lemma_call_ret(z: Z80State, m: [u8; 0x10000], target: u16)
    ensures
        ({
            let (z1, m1) = spec_call(z, m, target);
            let (z2, m2) = spec_ret(z1, m1);
            &&& z2.r16(Reg16::PC) == z.r16(Reg16::PC)
            &&& z2.r16(Reg16::SP) == z.r16(Reg16::SP)
        }),
{
    let v = z.r16(Reg16::PC);
    assert(word(lo_byte(v), hi_byte(v)) == v);
}


/// After the 0xFD prefix every opcode is the instruction it is after 0xDD,
/// with IY in place of IX, IYH and IYL in place of IXH and IXL, and the
/// 0xFD 0xCB prefix in place of 0xDD 0xCB; the operand bytes and the cycles
/// are the same.
pub proof fn lemma_fd_table_is_dd_table_on_iy(op: u8)
    ensures
        spec_decode_main(op, Reg16::IY) == decoded_iy_for_ix(spec_decode_main(op, Reg16::IX)),
{
    reveal(spec_decode_main);
}

/// After 0xFD 0xCB every opcode is the instruction it is after 0xDD 0xCB,
/// on `(IY+d)` in place of `(IX+d)`, with the same cycles.
pub proof fn lemma_fdcb_table_is_ddcb_table_on_iy(op: u8)
    ensures
        spec_decode_index_cb(op, Reg16::IY) == decoded_iy_for_ix(spec_decode_index_cb(op, Reg16::IX)),
{
    reveal(spec_decode_index_cb);
}


/// Is `x` a two digit BCD number?
pub open spec fn is_bcd(x: u8) -> bool {
    x / 16 <= 9 && x % 16 <= 9
}

/// The number that the BCD byte `x` stands for.
pub open spec fn bcd_value(x: u8) -> int {
    (x / 16) as int * 10 + (x % 16) as int
}

/// The decimal adjustment of the result of adding BCD numbers, bit by bit.
proof fn lemma_daa_add_bits(a: u8, b: u8, c: u8)
    by (bit_vector)
    requires
        a / 16 <= 9,
        a % 16 <= 9,
        b / 16 <= 9,
        b % 16 <= 9,
        c <= 1,
    ensures
        ({
            let r = ((a + b + c) % 256) as u8;
            let h = a % 16 + b % 16 + c >= 16;
            let cy = a + b + c >= 256;
            let d = ((r + spec_daa_diff(r, cy, h)) % 256) as u8;
            let s = (a / 16) * 10 + a % 16 + (b / 16) * 10 + b % 16 + c;
            &&& d / 16 <= 9
            &&& d % 16 <= 9
            &&& (d / 16) * 10 + d % 16 == s % 100
            &&& spec_daa_carry(r, cy) == (s >= 100)
        }),
{
}

/// The digits of a byte written as `16 * hi + lo`.
proof fn lemma_nibbles(x: int, hi: int, lo: int)
    requires
        x == 16 * hi + lo,
        0 <= lo < 16,
        0 <= hi,
    ensures
        x / 16 == hi,
        x % 16 == lo,
{
}

/// The flags of an 8 bit addition report its carry and half carry, and no
/// subtraction.
proof fn lemma_add_flag_byte(f0: u8, r: u8, h: bool, p: bool, c: bool)
    ensures
        ({
            let f = (f0 & XY) | sz_bits(r) | bit_if(h, HF) | bit_if(p, PF) | bit_if(c, CF);
            &&& (f & CF == CF) == c
            &&& (f & HF == HF) == h
            &&& f & NF != NF
        }),
{
    assert({
        let f = (f0 & XY) | sz_bits(r) | bit_if(h, HF) | bit_if(p, PF) | bit_if(c, CF);
        &&& (f & CF == CF) == c
        &&& (f & HF == HF) == h
        &&& f & NF != NF
    }) by (bit_vector);
}

/// The flags of an 8 bit subtraction report its borrow and half borrow,
/// and a subtraction.
proof fn lemma_sub_flag_bits(f0: u8, r: u8, h: bool, p: bool, c: bool)
    ensures
        ({
            let f = (f0 & XY) | sz_bits(r) | bit_if(h, HF) | bit_if(p, PF) | NF | bit_if(c, CF);
            &&& (f & CF == CF) == c
            &&& (f & HF == HF) == h
            &&& f & NF == NF
        }),
{
    assert({
        let f = (f0 & XY) | sz_bits(r) | bit_if(h, HF) | bit_if(p, PF) | NF | bit_if(c, CF);
        &&& (f & CF == CF) == c
        &&& (f & HF == HF) == h
        &&& f & NF == NF
    }) by (bit_vector);
}

/// Setting the carry flag and then the half carry flag leaves the carry
/// flag as set.
proof fn lemma_carry_then_half(f: u8, c: bool, h: bool)
    ensures
        flag_set(flag_by(flag_by(f, CF, c), HF, h), CF) == c,
{
    assert(flag_set(flag_by(flag_by(f, CF, c), HF, h), CF) == c) by (bit_vector);
}

/// Decimal addition: after `add` or `adc` of two BCD numbers, `daa` leaves
/// in A the BCD number of their decimal sum (with the carry in), modulo
/// 100, and sets the carry flag exactly when that sum reaches 100.
pub proof fn lemma_daa_after_add(a: u8, b: u8, c: bool, f0: u8)
    requires
        is_bcd(a),
        is_bcd(b),
    ensures
        ({
            let (r, f1) = spec_add8(a, b, c, f0);
            let (d, f2) = spec_daa(r, f1);
            let s = bcd_value(a) + bcd_value(b) + if c { 1int } else { 0int };
            &&& is_bcd(d)
            &&& bcd_value(d) == s % 100
            &&& flag_set(f2, CF) == (s >= 100)
        }),
{
    let ci: u8 = if c { 1 } else { 0 };
    let (r, f1) = spec_add8(a, b, c, f0);
    let h = a as int % 16 + b as int % 16 + ci >= 16;
    let cy = a as int + b as int + ci >= 256;
    lemma_add_flag_byte(f0, r, h, super::alu::add_overflow8(a, b, r), cy);
    lemma_daa_add_bits(a, b, ci);
    let diff = spec_daa_diff(r, cy, h);
    let (d, f2) = spec_daa(r, f1);
    let x = flag_by(flag_by(flag_by(f1, PF, super::internal::even_parity(d)), ZF, d == 0), super::internal::SF, d >= 0x80);
    lemma_carry_then_half(x, spec_daa_carry(r, cy), super::alu::spec_daa_half(r, false, h));
}

/// The decimal adjustment of the result of subtracting BCD numbers, bit by
/// bit.
proof fn lemma_daa_sub_bits(a: u8, b: u8, c: u8)
    by (bit_vector)
    requires
        a / 16 <= 9,
        a % 16 <= 9,
        b / 16 <= 9,
        b % 16 <= 9,
        c <= 1,
    ensures
        ({
            let r = ((a - b - c + 512) % 256) as u8;
            let h = a % 16 < b % 16 + c;
            let cy = a < b + c;
            let d = ((r - spec_daa_diff(r, cy, h) + 256) % 256) as u8;
            let x = (a / 16) * 10 + a % 16;
            let y = (b / 16) * 10 + b % 16 + c;
            &&& d / 16 <= 9
            &&& d % 16 <= 9
            &&& (d / 16) * 10 + d % 16 == (x + 100 - y) % 100
            &&& spec_daa_carry(r, cy) == (x < y)
        }),
{
}

/// Decimal subtraction: after `sub` or `sbc` of two BCD numbers, `daa`
/// leaves in A the BCD number of their decimal difference (less the borrow
/// in), modulo 100, and sets the carry flag exactly when the difference is
/// negative.
pub proof fn lemma_daa_after_sub(a: u8, b: u8, c: bool, f0: u8)
    requires
        is_bcd(a),
        is_bcd(b),
    ensures
        ({
            let (r, f1) = spec_sub8(a, b, c, f0);
            let (d, f2) = spec_daa(r, f1);
            let s = bcd_value(a) - bcd_value(b) - if c { 1int } else { 0int };
            &&& is_bcd(d)
            &&& bcd_value(d) == (s + 100) % 100
            &&& flag_set(f2, CF) == (s < 0)
        }),
{
    let ci: u8 = if c { 1 } else { 0 };
    let (r, f1) = spec_sub8(a, b, c, f0);
    let h = (a as int % 16) < (b as int % 16) + ci;
    let cy = (a as int) < b as int + ci;
    lemma_sub_flag_bits(f0, r, h, super::alu::sub_overflow8(a, b, r), cy);
    lemma_daa_sub_bits(a, b, ci);
    let (d, f2) = spec_daa(r, f1);
    let x = flag_by(
        flag_by(flag_by(f1, PF, super::internal::even_parity(d)), ZF, d == 0),
        super::internal::SF,
        d >= 0x80,
    );
    lemma_carry_then_half(x, spec_daa_carry(r, cy), super::alu::spec_daa_half(r, true, h));
}

/// The conditions of jumps, calls and returns: NZ and Z test bit 6 of F
/// (zero), NC and C bit 0 (carry), PO and PE bit 2 (parity or overflow), P
/// and M bit 7 (sign).
pub proof fn lemma_conditions(f: u8)
    ensures
        spec_check(ConditionCode::NZcc, f) == (f & 0x40 == 0),
        spec_check(ConditionCode::Zcc, f) == (f & 0x40 != 0),
        spec_check(ConditionCode::NCcc, f) == (f & 0x01 == 0),
        spec_check(ConditionCode::Ccc, f) == (f & 0x01 != 0),
        spec_check(ConditionCode::POcc, f) == (f & 0x04 == 0),
        spec_check(ConditionCode::PEcc, f) == (f & 0x04 != 0),
        spec_check(ConditionCode::Pcc, f) == (f & 0x80 == 0),
        spec_check(ConditionCode::Mcc, f) == (f & 0x80 != 0),
{
    assert((f & 0x40 == 0x40) == (f & 0x40 != 0) && (f & 0x01 == 0x01) == (f & 0x01 != 0) && (f
        & 0x04 == 0x04) == (f & 0x04 != 0) && (f & 0x80 == 0x80) == (f & 0x80 != 0)) by (bit_vector);
}

/// Rotations and shifts, as moves of bits: RLC and RRC rotate the byte one
/// place left or right, RL and RR rotate it through the carry, SLA and SRL
/// shift in a 0, SLL shifts in a 1 on the right, SRA keeps bit 7. The carry
/// is the bit shifted out: bit 7 for the left moves, bit 0 for the right
/// ones.
pub proof fn lemma_rotations(x: u8, c: bool, f: u8)
    ensures
        ({
            let ci: u8 = if c { 1 } else { 0 };
            &&& spec_rotate_value(Rotation::Rlc, x, c) == ((x << 1u8) | (x >> 7u8))
            &&& spec_rotate_value(Rotation::Rrc, x, c) == ((x >> 1u8) | (x << 7u8))
            &&& spec_rotate_value(Rotation::Rl, x, c) == ((x << 1u8) | ci)
            &&& spec_rotate_value(Rotation::Rr, x, c) == ((x >> 1u8) | (ci << 7u8))
            &&& spec_rotate_value(Rotation::Sla, x, c) == x << 1u8
            &&& spec_rotate_value(Rotation::Sra, x, c) == ((x >> 1u8) | (x & 0x80))
            &&& spec_rotate_value(Rotation::Sll, x, c) == ((x << 1u8) | 1)
            &&& spec_rotate_value(Rotation::Srl, x, c) == x >> 1u8
            &&& flag_set(spec_rotate(Rotation::Rlc, x, f).1, CF) == (x & 0x80 != 0)
            &&& flag_set(spec_rotate(Rotation::Rl, x, f).1, CF) == (x & 0x80 != 0)
            &&& flag_set(spec_rotate(Rotation::Sla, x, f).1, CF) == (x & 0x80 != 0)
            &&& flag_set(spec_rotate(Rotation::Sll, x, f).1, CF) == (x & 0x80 != 0)
            &&& flag_set(spec_rotate(Rotation::Rrc, x, f).1, CF) == (x & 1 != 0)
            &&& flag_set(spec_rotate(Rotation::Rr, x, f).1, CF) == (x & 1 != 0)
            &&& flag_set(spec_rotate(Rotation::Sra, x, f).1, CF) == (x & 1 != 0)
            &&& flag_set(spec_rotate(Rotation::Srl, x, f).1, CF) == (x & 1 != 0)
        }),
{
    let ci: u8 = if c { 1 } else { 0 };
    assert(ci <= 1);
    assert({
        &&& (((x as int * 2) % 256 + x as int / 128) as u8) == ((x << 1u8) | (x >> 7u8))
        &&& ((x as int / 2 + (x as int % 2) * 128) as u8) == ((x >> 1u8) | (x << 7u8))
        &&& (((x as int * 2) % 256 + ci as int) as u8) == ((x << 1u8) | ci)
        &&& ((x as int / 2 + ci as int * 128) as u8) == ((x >> 1u8) | (ci << 7u8))
        &&& (((x as int * 2) % 256) as u8) == x << 1u8
        &&& ((x as int / 2 + (x as int / 128) * 128) as u8) == ((x >> 1u8) | (x & 0x80))
        &&& (((x as int * 2) % 256 + 1) as u8) == ((x << 1u8) | 1)
        &&& ((x as int / 2) as u8) == x >> 1u8
        &&& (x >= 0x80) == (x & 0x80 != 0)
        &&& (x % 2 == 1) == (x & 1 != 0)
    }) by (bit_vector)
        requires
            ci <= 1,
    ;
    assert forall|k: Rotation| #![auto]
        flag_set(spec_rotate(k, x, f).1, CF) == super::alu::spec_rotate_carry(k, x) by {
        let r = spec_rotate_value(k, x, flag_set(f, CF));
        let cy = super::alu::spec_rotate_carry(k, x);
        let ep = super::internal::even_parity(r);
        assert(flag_set((f & XY) | (sz_bits(r) | bit_if(ep, PF)) | bit_if(cy, CF), CF) == cy)
            by (bit_vector);
    }
}

/// 8 bit addition `a + b + c`: the result is the sum modulo 256; the carry
/// flag is set when the sum passes 255, the half carry flag when the low
/// digits' sum passes 15, the zero flag when the result is 0, the sign flag
/// with its bit 7; the subtract flag is cleared.
pub proof fn lemma_add8(a: u8, b: u8, c: bool, f: u8)
    ensures
        ({
            let ci: int = if c { 1 } else { 0 };
            let (r, f1) = spec_add8(a, b, c, f);
            &&& r as int == (a + b + ci) % 256
            &&& flag_set(f1, CF) == (a + b + ci >= 256)
            &&& flag_set(f1, HF) == (a % 16 + b % 16 + ci >= 16)
            &&& flag_set(f1, ZF) == (r == 0)
            &&& flag_set(f1, super::internal::SF) == (r >= 0x80)
            &&& !flag_set(f1, NF)
        }),
{
    let ci: int = if c { 1 } else { 0 };
    let (r, f1) = spec_add8(a, b, c, f);
    let h = a % 16 + b % 16 + ci >= 16;
    let cy = a + b + ci >= 256;
    let p = super::alu::add_overflow8(a, b, r);
    assert({
        let g = (f & XY) | sz_bits(r) | bit_if(h, HF) | bit_if(p, PF) | bit_if(cy, CF);
        &&& (g & CF == CF) == cy
        &&& (g & HF == HF) == h
        &&& (g & ZF == ZF) == (r == 0)
        &&& (g & 0x80 == 0x80) == (r >= 0x80)
        &&& g & NF != NF
    }) by (bit_vector);
}

/// 8 bit subtraction `a - b - c`: the result is the difference modulo 256;
/// the carry flag is set when the difference is negative, the half carry
/// flag when the low digits borrow, the zero flag when the result is 0, the
/// sign flag with its bit 7; the subtract flag is set.
pub proof fn lemma_sub8(a: u8, b: u8, c: bool, f: u8)
    ensures
        ({
            let ci: int = if c { 1 } else { 0 };
            let (r, f1) = spec_sub8(a, b, c, f);
            &&& r as int == (a - b - ci + 256) % 256
            &&& flag_set(f1, CF) == (a < b + ci)
            &&& flag_set(f1, HF) == (a % 16 < b % 16 + ci)
            &&& flag_set(f1, ZF) == (r == 0)
            &&& flag_set(f1, super::internal::SF) == (r >= 0x80)
            &&& flag_set(f1, NF)
        }),
{
    let ci: int = if c { 1 } else { 0 };
    let (r, f1) = spec_sub8(a, b, c, f);
    let h = (a as int % 16) < (b as int % 16) + ci;
    let cy = (a as int) < b as int + ci;
    let p = super::alu::sub_overflow8(a, b, r);
    assert({
        let g = (f & XY) | sz_bits(r) | bit_if(h, HF) | bit_if(p, PF) | NF | bit_if(cy, CF);
        &&& (g & CF == CF) == cy
        &&& (g & HF == HF) == h
        &&& (g & ZF == ZF) == (r == 0)
        &&& (g & 0x80 == 0x80) == (r >= 0x80)
        &&& g & NF == NF
    }) by (bit_vector);
}

/// `inc` and `dec` of 8 bits: one more or one less, modulo 256; half carry
/// when the low digit passes 15 (or borrows), overflow at 0x7F (or 0x80),
/// zero and sign from the result, the subtract flag set only by `dec`, and
/// the carry flag kept.
pub proof fn lemma_inc_dec8(x: u8, f: u8)
    ensures
        ({
            let (r, f1) = spec_inc8(x, f);
            &&& r as int == (x + 1) % 256
            &&& flag_set(f1, HF) == (x % 16 == 15)
            &&& flag_set(f1, PF) == (x == 0x7F)
            &&& flag_set(f1, ZF) == (r == 0)
            &&& flag_set(f1, super::internal::SF) == (r >= 0x80)
            &&& !flag_set(f1, NF)
            &&& flag_set(f1, CF) == flag_set(f, CF)
        }),
        ({
            let (r, f1) = spec_dec8(x, f);
            &&& r as int == (x + 255) % 256
            &&& flag_set(f1, HF) == (x % 16 == 0)
            &&& flag_set(f1, PF) == (x == 0x80)
            &&& flag_set(f1, ZF) == (r == 0)
            &&& flag_set(f1, super::internal::SF) == (r >= 0x80)
            &&& flag_set(f1, NF)
            &&& flag_set(f1, CF) == flag_set(f, CF)
        }),
{
    let r = ((x as int + 1) % 256) as u8;
    let h = x % 16 == 15;
    let p = x == 0x7F;
    assert({
        let g = (f & (XY | CF)) | sz_bits(r) | bit_if(h, HF) | bit_if(p, PF);
        &&& (g & HF == HF) == h
        &&& (g & PF == PF) == p
        &&& (g & ZF == ZF) == (r == 0)
        &&& (g & 0x80 == 0x80) == (r >= 0x80)
        &&& g & NF != NF
        &&& (g & CF == CF) == (f & CF == CF)
    }) by (bit_vector);
    let d = ((x as int + 255) % 256) as u8;
    let hd = x % 16 == 0;
    let pd = x == 0x80;
    assert({
        let g = (f & (XY | CF)) | sz_bits(d) | bit_if(hd, HF) | bit_if(pd, PF) | NF;
        &&& (g & HF == HF) == hd
        &&& (g & PF == PF) == pd
        &&& (g & ZF == ZF) == (d == 0)
        &&& (g & 0x80 == 0x80) == (d >= 0x80)
        &&& g & NF == NF
        &&& (g & CF == CF) == (f & CF == CF)
    }) by (bit_vector);
}

/// `cpl` makes A its complement, 255 - A, and sets H and N; `neg` makes A
/// its negation modulo 256, sets C exactly when A was not 0, P/V exactly
/// when it was 0x80, Z exactly when it was 0, and N.
pub proof fn lemma_cpl_neg(z: Z80State)
    ensures
        spec_cpl(z).r8(Reg8::A) == 255 - z.r8(Reg8::A),
        flag_set(spec_cpl(z).f(), HF) && flag_set(spec_cpl(z).f(), NF),
        ({
            let a = z.r8(Reg8::A);
            let n = spec_neg(z);
            &&& n.r8(Reg8::A) as int == (256 - a) % 256
            &&& flag_set(n.f(), CF) == (a != 0)
            &&& flag_set(n.f(), PF) == (a == 0x80)
            &&& flag_set(n.f(), ZF) == (a == 0)
            &&& flag_set(n.f(), NF)
        }),
{
    let a = z.r8(Reg8::A);
    assert(!a == 255 - a) by (bit_vector);
    let f1 = z.with_r8(Reg8::A, !a).f();
    assert(flag_set(f1 | (HF | NF), HF) && flag_set(f1 | (HF | NF), NF)) by (bit_vector);
    let (r, f) = super::alu::spec_sub8(0, a, false, z.f());
    lemma_sub8(0, a, false, z.f());
    let z1 = z.with_f(f).with_r8(Reg8::A, r);
    let g = z1.f();
    assert(g == f);
    assert({
        let h = flag_by(flag_by(g, PF, a == 0x80), CF, a != 0);
        &&& flag_set(h, CF) == (a != 0)
        &&& flag_set(h, PF) == (a == 0x80)
        &&& flag_set(h, ZF) == flag_set(g, ZF)
        &&& flag_set(h, NF) == flag_set(g, NF)
    }) by (bit_vector);
}

/// `jr e` moves PC by the signed displacement `e`, modulo 65536; `djnz e`
/// decrements B and moves PC by `e` exactly when B did not become 0.
pub proof fn lemma_relative_jumps(z: Z80State, e: i8)
    ensures
        (spec_jr(z, e).r16(Reg16::PC) - z.r16(Reg16::PC) - e) % 65536 == 0,
        ({
            let b = z.r8(Reg8::B);
            let d = spec_djnz(z, e);
            &&& d.r8(Reg8::B) as int == (b + 255) % 256
            &&& b != 1 ==> (d.r16(Reg16::PC) - z.r16(Reg16::PC) - e) % 65536 == 0
            &&& b == 1 ==> d.r16(Reg16::PC) == z.r16(Reg16::PC)
        }),
{
}

/// `and`, `or` and `xor` leave in A the bitwise result; Z is set exactly when
/// it is 0, C and N are cleared, and H is set by `and` alone.
pub proof fn lemma_logic<M: super::super::memory16::Memory16>(z: Z80State, m: M, n: u8)
    ensures
        ({
            let a = z.r8(Reg8::A);
            let (za, _) = spec_logic(z, m, Logic::And, Operand8::Imm(n));
            let (zo, _) = spec_logic(z, m, Logic::Or, Operand8::Imm(n));
            let (zx, _) = spec_logic(z, m, Logic::Xor, Operand8::Imm(n));
            &&& za.r8(Reg8::A) == a & n
            &&& zo.r8(Reg8::A) == a | n
            &&& zx.r8(Reg8::A) == a ^ n
            &&& flag_set(za.f(), ZF) == (a & n == 0)
            &&& flag_set(zo.f(), ZF) == (a | n == 0)
            &&& flag_set(zx.f(), ZF) == (a ^ n == 0)
            &&& flag_set(za.f(), HF) && !flag_set(zo.f(), HF) && !flag_set(zx.f(), HF)
            &&& !flag_set(za.f(), CF) && !flag_set(zo.f(), CF) && !flag_set(zx.f(), CF)
            &&& !flag_set(za.f(), NF) && !flag_set(zo.f(), NF) && !flag_set(zx.f(), NF)
        }),
{
    let a = z.r8(Reg8::A);
    assert(n & a == a & n && n | a == a | n && n ^ a == a ^ n) by (bit_vector);
    let ra = a & n;
    let ro = a | n;
    let rx = a ^ n;
    lemma_logic_flag_bits(ra, z.with_r8(Reg8::A, ra).f());
    lemma_logic_flag_bits(ro, z.with_r8(Reg8::A, ro).f());
    lemma_logic_flag_bits(rx, z.with_r8(Reg8::A, rx).f());
}

/// The flags `and`, `or` and `xor` leave, with H set or not.
proof fn lemma_logic_flag_bits(r: u8, g: u8)
    ensures
        ({
            let x = super::alu::spec_logic_flags(r, g);
            &&& flag_set(x, ZF) == (r == 0)
            &&& !flag_set(x, HF) && !flag_set(x, CF) && !flag_set(x, NF)
            &&& flag_set(x | HF, ZF) == (r == 0) && flag_set(x | HF, HF)
            &&& !flag_set(x | HF, CF) && !flag_set(x | HF, NF)
        }),
{
    let ep = super::internal::even_parity(r);
    assert({
        let x = (g & XY) | (sz_bits(r) | bit_if(ep, PF));
        &&& (x & ZF == ZF) == (r == 0)
        &&& x & HF != HF && x & CF != CF && x & NF != NF
        &&& ((x | HF) & ZF == ZF) == (r == 0) && (x | HF) & HF == HF
        &&& (x | HF) & CF != CF && (x | HF) & NF != NF
    }) by (bit_vector);
}

/// `ldi` and `ldd` on flat memory copy the byte at HL to DE, move HL and DE
/// one place up (`ldi`) or down (`ldd`), count BC down, and set P/V exactly
/// when BC did not reach 0.
pub proof fn lemma_block_copy(z: Z80State, m: [u8; 0x10000], up: bool)
    ensures
        ({
            let inc: u16 = if up { 1 } else { 0xFFFF };
            let step: int = if up { 1 } else { -1 };
            let hl = z.r16(Reg16::HL);
            let de = z.r16(Reg16::DE);
            let (z1, m1) = spec_ldid(z, m, inc);
            &&& m1@[de as int] == m@[hl as int]
            &&& forall|i: int| 0 <= i < 0x10000 && i != de ==> m1@[i] == m@[i]
            &&& z1.r16(Reg16::HL) as int == (hl + step + 65536) % 65536
            &&& z1.r16(Reg16::DE) as int == (de + step + 65536) % 65536
            &&& z1.r16(Reg16::BC) as int == (z.r16(Reg16::BC) + 65535) % 65536
            &&& flag_set(z1.f(), PF) == (z.r16(Reg16::BC) != 1)
        }),
{
    let inc: u16 = if up { 1 } else { 0xFFFF };
    let (z1, m1) = spec_ldid(z, m, inc);
    let bc = super::mem::prev(z.r16(Reg16::BC));
    let hl = z.r16(Reg16::HL);
    let de = z.r16(Reg16::DE);
    let za = z.with_r16(Reg16::HL, ((hl as int + inc as int) % 65536) as u16).with_r16(
        Reg16::DE,
        ((de as int + inc as int) % 65536) as u16,
    ).with_r16(Reg16::BC, bc);
    let g = za.f() & !(HF | NF);
    assert(flag_set(flag_by(g, PF, bc != 0), PF) == (bc != 0)) by (bit_vector);
}

} // verus!
