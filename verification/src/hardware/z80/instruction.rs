//! Executing Z80 instructions: reading the operand bytes that follow an
//! opcode, performing the instruction, and the functions that run one
//! instruction of each opcode table.
use vstd::prelude::*;
use crate::hardware::io16::Io16;
use crate::hardware::memory16::Memory16;
use crate::utilities::to16;
use super::decode::{
    decode_cb, decode_dd, decode_ddcb, decode_ed, decode_fd, decode_fdcb, decode_noprefix,
    spec_decode_cb, spec_decode_ed, spec_decode_index_cb, spec_decode_main, Decoded, Fetch, Instr,
    Pat16, Pat8,
};
use super::internal::{word, Reg16, Z80State};
use super::io;
use super::mem;
use super::no;
use super::no::cycles_ok;
use super::operand::{next, Operand16, Operand8};

verus! {

broadcast use super::internal::group_z80_state;

/// The operand bytes read after an opcode.
#[derive(Clone, Copy, Debug, PartialEq, Eq, Structural)]
pub struct Args {
    pub nn: u16,
    pub n: u8,
    pub e: i8,
}

/// The operand an 8 bit pattern stands for, given the operand bytes.
pub open spec fn resolve8(p: Pat8, a: Args) -> Operand8 {
    match p {
        Pat8::R(r) => Operand8::Reg(r),
        Pat8::N => Operand8::Imm(a.n),
        Pat8::At(r) => Operand8::Address(r),
        Pat8::AtNN => Operand8::AddressImm(a.nn),
        Pat8::Idx(r) => Operand8::Shift(r, a.e),
        Pat8::Lit(v) => Operand8::Imm(v),
    }
}

/// The operand a 16 bit pattern stands for, given the operand bytes.
pub open spec fn resolve16(p: Pat16, a: Args) -> Operand16 {
    match p {
        Pat16::R(r) => Operand16::Reg(r),
        Pat16::NN => Operand16::Imm(a.nn),
        Pat16::AtNN => Operand16::AddressImm(a.nn),
        Pat16::At(r) => Operand16::Address(r),
    }
}

fn resolve8_exec(p: Pat8, a: Args) -> (o: Operand8)
    ensures
        o == resolve8(p, a),
{
    match p {
        Pat8::R(r) => Operand8::Reg(r),
        Pat8::N => Operand8::Imm(a.n),
        Pat8::At(r) => Operand8::Address(r),
        Pat8::AtNN => Operand8::AddressImm(a.nn),
        Pat8::Idx(r) => Operand8::Shift(r, a.e),
        Pat8::Lit(v) => Operand8::Imm(v),
    }
}

fn resolve16_exec(p: Pat16, a: Args) -> (o: Operand16)
    ensures
        o == resolve16(p, a),
{
    match p {
        Pat16::R(r) => Operand16::Reg(r),
        Pat16::NN => Operand16::Imm(a.nn),
        Pat16::AtNN => Operand16::AddressImm(a.nn),
        Pat16::At(r) => Operand16::Address(r),
    }
}

/// The state with PC advanced by one.
pub open spec fn inc_pc_spec(z: Z80State) -> Z80State {
    z.with_r16(Reg16::PC, next(z.r16(Reg16::PC)))
}

/// Read the byte at PC.
pub fn read_pc<M: Memory16>(z: &Z80State, m: &mut M) -> (r: u8)
    ensures
        r == old(m).spec_read(z.r16(Reg16::PC)),
        *final(m) == *old(m),
{
    m.read(z.reg16(Reg16::PC))
}

/// Advance PC by one.
pub fn inc_pc(z: &mut Z80State)
    ensures
        *final(z) == inc_pc_spec(*old(z)),
{
    let pc = z.reg16(Reg16::PC);
    z.set_reg16(Reg16::PC, pc.wrapping_add(1));
}

/// Read the next instruction byte and advance PC.
pub open spec fn spec_next_byte<M: Memory16>(z: Z80State, m: M) -> (Z80State, u8) {
    (inc_pc_spec(z), m.spec_read(z.r16(Reg16::PC)))
}

fn next_byte<M: Memory16>(z: &mut Z80State, m: &mut M) -> (r: u8)
    ensures
        (*final(z), r) == spec_next_byte(*old(z), *old(m)),
        *final(m) == *old(m),
{
    let b = read_pc(z, m);
    inc_pc(z);
    b
}

/// The operand bytes that follow an opcode, read from PC on, and the state
/// with PC past them.
pub open spec fn spec_fetch<M: Memory16>(z: Z80State, m: M, f: Fetch) -> (Z80State, Args) {
    match f {
        Fetch::NoFetch => (z, Args { nn: 0, n: 0, e: 0 }),
        Fetch::N => {
            let (z1, n) = spec_next_byte(z, m);
            (z1, Args { nn: 0, n, e: 0 })
        },
        Fetch::NN => {
            let (z1, lo) = spec_next_byte(z, m);
            let (z2, hi) = spec_next_byte(z1, m);
            (z2, Args { nn: word(lo, hi), n: 0, e: 0 })
        },
        Fetch::E => {
            let (z1, e) = spec_next_byte(z, m);
            (z1, Args { nn: 0, n: 0, e: e as i8 })
        },
        Fetch::DN => {
            let (z1, d) = spec_next_byte(z, m);
            let (z2, n) = spec_next_byte(z1, m);
            (z2, Args { nn: 0, n, e: d as i8 })
        },
    }
}

pub fn fetch<M: Memory16>(z: &mut Z80State, m: &mut M, f: Fetch) -> (a: Args)
    ensures
        (*final(z), a) == spec_fetch(*old(z), *old(m), f),
        *final(m) == *old(m),
        final(z).cycles == old(z).cycles,
{
    match f {
        Fetch::NoFetch => Args { nn: 0, n: 0, e: 0 },
        Fetch::N => {
            let n = next_byte(z, m);
            Args { nn: 0, n, e: 0 }
        },
        Fetch::NN => {
            let lo = next_byte(z, m);
            let hi = next_byte(z, m);
            Args { nn: to16(lo, hi), n: 0, e: 0 }
        },
        Fetch::E => {
            let e = next_byte(z, m);
            Args { nn: 0, n: 0, e: e as i8 }
        },
        Fetch::DN => {
            let d = next_byte(z, m);
            let n = next_byte(z, m);
            Args { nn: 0, n, e: d as i8 }
        },
    }
}

/// Instructions whose bit and mode numbers are in range.
pub open spec fn valid_instr(i: Instr) -> bool {
    match i {
        Instr::Bit(n, _) => n < 8,
        Instr::SetRes(n, _, _) => n < 8,
        Instr::SetStore(n, _, _) => n < 8,
        Instr::ResStore(n, _, _) => n < 8,
        Instr::Im(x) => x <= 2,
        _ => true,
    }
}

/// Every instruction in the opcode tables is valid.
#[verifier::rlimit(40)]
pub proof fn lemma_tables_valid(op: u8)
    ensures
        valid_instr(spec_decode_main(op, Reg16::HL).instr),
        valid_instr(spec_decode_main(op, Reg16::IX).instr),
        valid_instr(spec_decode_main(op, Reg16::IY).instr),
        valid_instr(spec_decode_ed(op).instr),
        valid_instr(spec_decode_cb(op).instr),
        valid_instr(spec_decode_index_cb(op, Reg16::IX).instr),
        valid_instr(spec_decode_index_cb(op, Reg16::IY).instr),
{
    reveal(spec_decode_main);
    reveal(spec_decode_ed);
    reveal(spec_decode_cb);
    reveal(spec_decode_index_cb);
}

/// What an instruction does to the machine, given its operand bytes.
#[verifier::opaque]
pub open spec fn spec_execute<M: Memory16, I: Io16>(
    z: Z80State,
    m: M,
    io: I,
    i: Instr,
    a: Args,
) -> (Z80State, M, I) {
    match i {
        Instr::Nop => (z, m, io),
        Instr::Ld(x, y) => {
            let (z1, m1) = mem::spec_ld(z, m, resolve8(x, a), resolve8(y, a));
            (z1, m1, io)
        },
        Instr::Ld16(x, y) => {
            let (z1, m1) = mem::spec_ld16(z, m, resolve16(x, a), resolve16(y, a));
            (z1, m1, io)
        },
        Instr::Push(r) => {
            let (z1, m1) = mem::spec_push(z, m, r);
            (z1, m1, io)
        },
        Instr::Pop(r) => {
            let (z1, m1) = mem::spec_pop(z, m, r);
            (z1, m1, io)
        },
        Instr::Ex(x, y) => {
            let (z1, m1) = mem::spec_ex(z, m, resolve16(x, a), y);
            (z1, m1, io)
        },
        Instr::Exx => (no::spec_exx(z), m, io),
        Instr::Ldid(inc) => {
            let (z1, m1) = mem::spec_ldid(z, m, inc);
            (z1, m1, io)
        },
        Instr::Ldxr(inc) => {
            let (z1, m1) = mem::spec_ldxr(z, m, inc);
            (z1, m1, io)
        },
        Instr::Cpid(inc) => {
            let (z1, m1) = mem::spec_cpid(z, m, inc);
            (z1, m1, io)
        },
        Instr::Cpxr(inc) => {
            let (z1, m1) = mem::spec_cpxr(z, m, inc);
            (z1, m1, io)
        },
        Instr::Add(x, y, c) => {
            let (z1, m1) = mem::spec_add(z, m, x, resolve8(y, a), c);
            (z1, m1, io)
        },
        Instr::Sub(x, y, c) => {
            let (z1, m1) = mem::spec_sub(z, m, x, resolve8(y, a), c);
            (z1, m1, io)
        },
        Instr::Logic(k, y) => {
            let (z1, m1) = mem::spec_logic(z, m, k, resolve8(y, a));
            (z1, m1, io)
        },
        Instr::Cp(y) => {
            let (z1, m1) = mem::spec_cp(z, m, resolve8(y, a));
            (z1, m1, io)
        },
        Instr::IncDec(x, down) => {
            let (z1, m1) = mem::spec_inc_dec(z, m, resolve8(x, a), down);
            (z1, m1, io)
        },
        Instr::Daa => (no::spec_daa(z), m, io),
        Instr::Cpl => (no::spec_cpl(z), m, io),
        Instr::Neg => (no::spec_neg(z), m, io),
        Instr::Ccf => (no::spec_ccf(z), m, io),
        Instr::Scf => (no::spec_scf(z), m, io),
        Instr::Halt => (no::spec_set_prefix(z, super::internal::Prefix::Halt), m, io),
        Instr::Di => (no::spec_di(z), m, io),
        Instr::Ei => (no::spec_ei(z), m, io),
        Instr::Im(x) => (Z80State { interrupt_mode: no::spec_im_mode(x), ..z }, m, io),
        Instr::Add16(x, y) => (no::spec_add16(z, x, y), m, io),
        Instr::Adc16(x, y) => (no::spec_adc16(z, x, y), m, io),
        Instr::Sbc16(x, y) => (no::spec_sbc16(z, x, y), m, io),
        Instr::Inc16(x) => (no::spec_inc16(z, x), m, io),
        Instr::Dec16(x) => (no::spec_dec16(z, x), m, io),
        Instr::RotA(k) => (mem::spec_rot_a(z, k), m, io),
        Instr::Rot(k, x, store) => {
            let (z1, m1) = mem::spec_rot(z, m, k, resolve8(x, a), store);
            (z1, m1, io)
        },
        Instr::Rxd(left) => {
            let (z1, m1) = mem::spec_rxd(z, m, left);
            (z1, m1, io)
        },
        Instr::Bit(n, y) => {
            let (z1, m1) = mem::spec_bit(z, m, n, resolve8(y, a));
            (z1, m1, io)
        },
        Instr::SetRes(n, y, v) => {
            let (z1, m1) = mem::spec_set_res(z, m, n, resolve8(y, a), v);
            (z1, m1, io)
        },
        Instr::SetStore(n, y, w) => {
            let (z1, m1) = mem::spec_set_store(z, m, n, resolve8(y, a), w);
            (z1, m1, io)
        },
        Instr::ResStore(n, y, w) => {
            let (z1, m1) = mem::spec_res_store(z, m, n, resolve8(y, a), w);
            (z1, m1, io)
        },
        Instr::Jp(x) => {
            let (z1, m1) = mem::spec_jp(z, m, resolve16(x, a));
            (z1, m1, io)
        },
        Instr::Jpcc(cc) => (no::spec_jpcc(z, cc, a.nn), m, io),
        Instr::Jr => (no::spec_jr(z, a.e), m, io),
        Instr::Jrcc(cc) => (no::spec_jrcc(z, cc, a.e), m, io),
        Instr::Djnz => (no::spec_djnz(z, a.e), m, io),
        Instr::Call => {
            let (z1, m1) = mem::spec_call(z, m, a.nn);
            (z1, m1, io)
        },
        Instr::Callcc(cc) => {
            let (z1, m1) = mem::spec_callcc(z, m, cc, a.nn);
            (z1, m1, io)
        },
        Instr::Ret => {
            let (z1, m1) = mem::spec_ret(z, m);
            (z1, m1, io)
        },
        Instr::Retcc(cc) => {
            let (z1, m1) = mem::spec_retcc(z, m, cc);
            (z1, m1, io)
        },
        Instr::Retn => {
            let (z1, m1) = mem::spec_retn(z, m);
            (z1, m1, io)
        },
        Instr::Rst(x) => {
            let (z1, m1) = mem::spec_call(z, m, x as u16);
            (z1, m1, io)
        },
        Instr::InN(x) => {
            let (z1, io1) = io::spec_in_n(z, io, x, a.n);
            (z1, m, io1)
        },
        Instr::InC(x, y) => {
            let (z1, io1) = io::spec_in_c(z, io, x, y);
            (z1, m, io1)
        },
        Instr::InF(x) => {
            let (z1, io1) = io::spec_in_f(z, io, x);
            (z1, m, io1)
        },
        Instr::Inid(inc) => io::spec_inid(z, m, io, inc),
        Instr::Inxr(inc) => io::spec_inxr(z, m, io, inc),
        Instr::OutN(y) => {
            let (z1, io1) = io::spec_out_n(z, io, a.n, y);
            (z1, m, io1)
        },
        Instr::OutC(x, y) => {
            let (z1, io1) = io::spec_out_c(z, m, io, x, resolve8(y, a));
            (z1, m, io1)
        },
        Instr::Outid(inc) => {
            let (z1, io1) = io::spec_outid(z, m, io, inc);
            (z1, m, io1)
        },
        Instr::Otxr(inc) => {
            let (z1, io1) = io::spec_otxr(z, m, io, inc);
            (z1, m, io1)
        },
        Instr::LdIr(x, y) => (no::spec_ld_ir(z, x, y), m, io),
        Instr::SetPrefix(p) => (no::spec_set_prefix(z, p), m, io),
    }
}

fn is_group_0(i: Instr) -> (r: bool)
    ensures
        r == in_group_0(i),
{
    match i {
        Instr::Nop => true,
        Instr::Ld(_, _) => true,
        Instr::Ld16(_, _) => true,
        Instr::Push(_) => true,
        Instr::Pop(_) => true,
        Instr::Ex(_, _) => true,
        Instr::Exx => true,
        Instr::Ldid(_) => true,
        Instr::Ldxr(_) => true,
        Instr::Cpid(_) => true,
        Instr::Cpxr(_) => true,
        Instr::Add(_, _, _) => true,
        Instr::Sub(_, _, _) => true,
        Instr::Logic(_, _) => true,
        Instr::Cp(_) => true,
        Instr::IncDec(_, _) => true,
        _ => false,
    }
}

fn is_group_1(i: Instr) -> (r: bool)
    ensures
        r == in_group_1(i),
{
    match i {
        Instr::Daa => true,
        Instr::Cpl => true,
        Instr::Neg => true,
        Instr::Ccf => true,
        Instr::Scf => true,
        Instr::Halt => true,
        Instr::Di => true,
        Instr::Ei => true,
        Instr::Im(_) => true,
        Instr::Add16(_, _) => true,
        Instr::Adc16(_, _) => true,
        Instr::Sbc16(_, _) => true,
        Instr::Inc16(_) => true,
        Instr::Dec16(_) => true,
        Instr::RotA(_) => true,
        Instr::Rot(_, _, _) => true,
        _ => false,
    }
}

fn is_group_2(i: Instr) -> (r: bool)
    ensures
        r == in_group_2(i),
{
    match i {
        Instr::Rxd(_) => true,
        Instr::Bit(_, _) => true,
        Instr::SetRes(_, _, _) => true,
        Instr::SetStore(_, _, _) => true,
        Instr::ResStore(_, _, _) => true,
        Instr::Jp(_) => true,
        Instr::Jpcc(_) => true,
        Instr::Jr => true,
        Instr::Jrcc(_) => true,
        Instr::Djnz => true,
        Instr::Call => true,
        Instr::Callcc(_) => true,
        Instr::Ret => true,
        Instr::Retcc(_) => true,
        Instr::Retn => true,
        _ => false,
    }
}

fn is_group_3(i: Instr) -> (r: bool)
    ensures
        r == in_group_3(i),
{
    match i {
        Instr::Rst(_) => true,
        Instr::InN(_) => true,
        Instr::InC(_, _) => true,
        Instr::InF(_) => true,
        Instr::Inid(_) => true,
        Instr::Inxr(_) => true,
        Instr::OutN(_) => true,
        Instr::OutC(_, _) => true,
        Instr::Outid(_) => true,
        Instr::Otxr(_) => true,
        Instr::LdIr(_, _) => true,
        Instr::SetPrefix(_) => true,
        _ => false,
    }
}

pub open spec fn in_group_0(i: Instr) -> bool {
    match i {
        Instr::Nop => true,
        Instr::Ld(_, _) => true,
        Instr::Ld16(_, _) => true,
        Instr::Push(_) => true,
        Instr::Pop(_) => true,
        Instr::Ex(_, _) => true,
        Instr::Exx => true,
        Instr::Ldid(_) => true,
        Instr::Ldxr(_) => true,
        Instr::Cpid(_) => true,
        Instr::Cpxr(_) => true,
        Instr::Add(_, _, _) => true,
        Instr::Sub(_, _, _) => true,
        Instr::Logic(_, _) => true,
        Instr::Cp(_) => true,
        Instr::IncDec(_, _) => true,
        _ => false,
    }
}

pub open spec fn in_group_1(i: Instr) -> bool {
    match i {
        Instr::Daa => true,
        Instr::Cpl => true,
        Instr::Neg => true,
        Instr::Ccf => true,
        Instr::Scf => true,
        Instr::Halt => true,
        Instr::Di => true,
        Instr::Ei => true,
        Instr::Im(_) => true,
        Instr::Add16(_, _) => true,
        Instr::Adc16(_, _) => true,
        Instr::Sbc16(_, _) => true,
        Instr::Inc16(_) => true,
        Instr::Dec16(_) => true,
        Instr::RotA(_) => true,
        Instr::Rot(_, _, _) => true,
        _ => false,
    }
}

pub open spec fn in_group_2(i: Instr) -> bool {
    match i {
        Instr::Rxd(_) => true,
        Instr::Bit(_, _) => true,
        Instr::SetRes(_, _, _) => true,
        Instr::SetStore(_, _, _) => true,
        Instr::ResStore(_, _, _) => true,
        Instr::Jp(_) => true,
        Instr::Jpcc(_) => true,
        Instr::Jr => true,
        Instr::Jrcc(_) => true,
        Instr::Djnz => true,
        Instr::Call => true,
        Instr::Callcc(_) => true,
        Instr::Ret => true,
        Instr::Retcc(_) => true,
        Instr::Retn => true,
        _ => false,
    }
}

pub open spec fn in_group_3(i: Instr) -> bool {
    match i {
        Instr::Rst(_) => true,
        Instr::InN(_) => true,
        Instr::InC(_, _) => true,
        Instr::InF(_) => true,
        Instr::Inid(_) => true,
        Instr::Inxr(_) => true,
        Instr::OutN(_) => true,
        Instr::OutC(_, _) => true,
        Instr::Outid(_) => true,
        Instr::Otxr(_) => true,
        Instr::LdIr(_, _) => true,
        Instr::SetPrefix(_) => true,
        _ => false,
    }
}

#[verifier::rlimit(60)]
fn execute_a<M: Memory16, I: Io16>(
    z: &mut Z80State,
    m: &mut M,
    io: &mut I,
    i: Instr,
    a: Args,
)
    requires
        cycles_ok(*old(z)),
        valid_instr(i),
        in_group_0(i),
    ensures
        (*final(z), *final(m), *final(io)) == spec_execute(*old(z), *old(m), *old(io), i, a),
        old(z).cycles <= final(z).cycles <= old(z).cycles + 21,
{
    reveal(spec_execute);
    match i {
        Instr::Nop => no::nop(z),
        Instr::Ld(x, y) => mem::ld(z, m, resolve8_exec(x, a), resolve8_exec(y, a)),
        Instr::Ld16(x, y) => mem::ld16(z, m, resolve16_exec(x, a), resolve16_exec(y, a)),
        Instr::Push(r) => mem::push(z, m, r),
        Instr::Pop(r) => mem::pop(z, m, r),
        Instr::Ex(x, y) => mem::ex(z, m, resolve16_exec(x, a), y),
        Instr::Exx => no::exx(z),
        Instr::Ldid(inc) => mem::ldid(z, m, inc),
        Instr::Ldxr(inc) => mem::ldxr(z, m, inc),
        Instr::Cpid(inc) => mem::cpid(z, m, inc),
        Instr::Cpxr(inc) => mem::cpxr(z, m, inc),
        Instr::Add(x, y, c) => mem::add(z, m, x, resolve8_exec(y, a), c),
        Instr::Sub(x, y, c) => mem::sub(z, m, x, resolve8_exec(y, a), c),
        Instr::Logic(k, y) => mem::logic(z, m, k, resolve8_exec(y, a)),
        Instr::Cp(y) => mem::cp(z, m, resolve8_exec(y, a)),
        Instr::IncDec(x, down) => mem::inc_dec(z, m, resolve8_exec(x, a), down),
        _ => {},
    }
}

#[verifier::rlimit(60)]
fn execute_b<M: Memory16, I: Io16>(
    z: &mut Z80State,
    m: &mut M,
    io: &mut I,
    i: Instr,
    a: Args,
)
    requires
        cycles_ok(*old(z)),
        valid_instr(i),
        in_group_1(i),
    ensures
        (*final(z), *final(m), *final(io)) == spec_execute(*old(z), *old(m), *old(io), i, a),
        old(z).cycles <= final(z).cycles <= old(z).cycles + 21,
{
    reveal(spec_execute);
    match i {
        Instr::Daa => no::daa(z),
        Instr::Cpl => no::cpl(z),
        Instr::Neg => no::neg(z),
        Instr::Ccf => no::ccf(z),
        Instr::Scf => no::scf(z),
        Instr::Halt => no::halt(z),
        Instr::Di => no::di(z),
        Instr::Ei => no::ei(z),
        Instr::Im(x) => no::im(z, x),
        Instr::Add16(x, y) => no::add16(z, x, y),
        Instr::Adc16(x, y) => no::adc16(z, x, y),
        Instr::Sbc16(x, y) => no::sbc16(z, x, y),
        Instr::Inc16(x) => no::inc16(z, x),
        Instr::Dec16(x) => no::dec16(z, x),
        Instr::RotA(k) => mem::rot_a(z, k),
        Instr::Rot(k, x, store) => mem::rot(z, m, k, resolve8_exec(x, a), store),
        _ => {},
    }
}

#[verifier::rlimit(60)]
fn execute_c<M: Memory16, I: Io16>(
    z: &mut Z80State,
    m: &mut M,
    io: &mut I,
    i: Instr,
    a: Args,
)
    requires
        cycles_ok(*old(z)),
        valid_instr(i),
        in_group_2(i),
    ensures
        (*final(z), *final(m), *final(io)) == spec_execute(*old(z), *old(m), *old(io), i, a),
        old(z).cycles <= final(z).cycles <= old(z).cycles + 21,
{
    reveal(spec_execute);
    match i {
        Instr::Rxd(left) => mem::rxd(z, m, left),
        Instr::Bit(n, y) => mem::bit(z, m, n, resolve8_exec(y, a)),
        Instr::SetRes(n, y, v) => mem::set_res(z, m, n, resolve8_exec(y, a), v),
        Instr::SetStore(n, y, w) => mem::set_store(z, m, n, resolve8_exec(y, a), w),
        Instr::ResStore(n, y, w) => mem::res_store(z, m, n, resolve8_exec(y, a), w),
        Instr::Jp(x) => mem::jp(z, m, resolve16_exec(x, a)),
        Instr::Jpcc(cc) => no::jpcc(z, cc, a.nn),
        Instr::Jr => no::jr(z, a.e),
        Instr::Jrcc(cc) => no::jrcc(z, cc, a.e),
        Instr::Djnz => no::djnz(z, a.e),
        Instr::Call => mem::call(z, m, a.nn),
        Instr::Callcc(cc) => mem::callcc(z, m, cc, a.nn),
        Instr::Ret => mem::ret(z, m),
        Instr::Retcc(cc) => mem::retcc(z, m, cc),
        Instr::Retn => mem::retn(z, m),
        _ => {},
    }
}

#[verifier::rlimit(60)]
fn execute_d<M: Memory16, I: Io16>(
    z: &mut Z80State,
    m: &mut M,
    io: &mut I,
    i: Instr,
    a: Args,
)
    requires
        cycles_ok(*old(z)),
        valid_instr(i),
        in_group_3(i),
    ensures
        (*final(z), *final(m), *final(io)) == spec_execute(*old(z), *old(m), *old(io), i, a),
        old(z).cycles <= final(z).cycles <= old(z).cycles + 21,
{
    reveal(spec_execute);
    match i {
        Instr::Rst(x) => mem::call(z, m, x as u16),
        Instr::InN(x) => io::in_n(z, io, x, a.n),
        Instr::InC(x, y) => io::in_c(z, io, x, y),
        Instr::InF(x) => io::in_f(z, io, x),
        Instr::Inid(inc) => io::inid(z, m, io, inc),
        Instr::Inxr(inc) => io::inxr(z, m, io, inc),
        Instr::OutN(y) => io::out_n(z, io, a.n, y),
        Instr::OutC(x, y) => io::out_c(z, m, io, x, resolve8_exec(y, a)),
        Instr::Outid(inc) => io::outid(z, m, io, inc),
        Instr::Otxr(inc) => io::otxr(z, m, io, inc),
        Instr::LdIr(x, y) => no::ld_ir(z, x, y),
        Instr::SetPrefix(p) => no::prefix(z, p),
        _ => {},
    }
}

/// Perform an instruction.
pub fn execute<M: Memory16, I: Io16>(
    z: &mut Z80State,
    m: &mut M,
    io: &mut I,
    i: Instr,
    a: Args,
)
    requires
        cycles_ok(*old(z)),
        valid_instr(i),
    ensures
        (*final(z), *final(m), *final(io)) == spec_execute(*old(z), *old(m), *old(io), i, a),
        old(z).cycles <= final(z).cycles <= old(z).cycles + 21,
{
    if is_group_0(i) {
        execute_a(z, m, io, i, a);
    } else if is_group_1(i) {
        execute_b(z, m, io, i, a);
    } else if is_group_2(i) {
        execute_c(z, m, io, i, a);
    } else {
        execute_d(z, m, io, i, a);
    }
}

/// Fetch an instruction's operand bytes, perform it, and count its cycles.
pub open spec fn spec_exec_decoded<M: Memory16, I: Io16>(
    z: Z80State,
    m: M,
    io: I,
    d: Decoded,
    a0: Args,
) -> (Z80State, M, I) {
    let (z1, fetched) = spec_fetch(z, m, d.fetch);
    let a = if d.fetch == Fetch::NoFetch {
        a0
    } else {
        fetched
    };
    let (z2, m2, io2) = spec_execute(z1, m, io, d.instr, a);
    (z2.plus_cycles(d.cycles as u64), m2, io2)
}

fn exec_decoded<M: Memory16, I: Io16>(
    z: &mut Z80State,
    m: &mut M,
    io: &mut I,
    d: Decoded,
    a0: Args,
)
    requires
        cycles_ok(*old(z)),
        valid_instr(d.instr),
    ensures
        (*final(z), *final(m), *final(io)) == spec_exec_decoded(
            *old(z),
            *old(m),
            *old(io),
            d,
            a0,
        ),
        old(z).cycles <= final(z).cycles <= old(z).cycles + 21 + 255,
{
    let fetched = fetch(z, m, d.fetch);
    let a = if let Fetch::NoFetch = d.fetch {
        a0
    } else {
        fetched
    };
    execute(z, m, io, d.instr, a);
    z.inc_cycles(d.cycles as u64);
}

/// The opcode tables.
#[derive(Clone, Copy, Debug, PartialEq, Eq, Structural)]
pub enum Table {
    /// The main table, with HL, or an index register after 0xDD or 0xFD.
    Main(Reg16),
    Ed,
    Cb,
    /// The 0xDDCB or 0xFDCB table.
    IndexCb(Reg16),
}

pub open spec fn spec_decode_table(t: Table, op: u8) -> Decoded {
    match t {
        Table::Main(hl) => spec_decode_main(op, hl),
        Table::Ed => spec_decode_ed(op),
        Table::Cb => spec_decode_cb(op),
        Table::IndexCb(ix) => spec_decode_index_cb(op, ix),
    }
}

/// Run one instruction of a table: read the opcode at PC (for the indexed
/// 0xCB tables, a displacement comes first), then fetch, perform and count
/// the instruction.
pub open spec fn spec_run_table<M: Memory16, I: Io16>(z: Z80State, m: M, io: I, t: Table) -> (
    Z80State,
    M,
    I,
) {
    match t {
        Table::IndexCb(ix) => {
            let (z1, d) = spec_next_byte(z, m);
            let (z2, op) = spec_next_byte(z1, m);
            spec_exec_decoded(z2, m, io, spec_decode_index_cb(op, ix), Args { nn: 0, n: 0, e: d as i8 })
        },
        _ => {
            let (z1, op) = spec_next_byte(z, m);
            spec_exec_decoded(z1, m, io, spec_decode_table(t, op), Args { nn: 0, n: 0, e: 0 })
        },
    }
}

/// Run the instruction at PC, an opcode without prefix.
pub fn noprefix<M: Memory16, I: Io16>(z: &mut Z80State, m: &mut M, io: &mut I)
    requires
        cycles_ok(*old(z)),
    ensures
        (*final(z), *final(m), *final(io)) == spec_run_table(
            *old(z),
            *old(m),
            *old(io),
            Table::Main(Reg16::HL),
        ),
        old(z).cycles <= final(z).cycles <= old(z).cycles + 276,
{
    let op = next_byte(z, m);
    let d = decode_noprefix(op);
    proof {
        lemma_tables_valid(op);
    }
    exec_decoded(z, m, io, d, Args { nn: 0, n: 0, e: 0 });
}

/// Run the instruction at PC, an opcode after the 0xED prefix.
pub fn ed<M: Memory16, I: Io16>(z: &mut Z80State, m: &mut M, io: &mut I)
    requires
        cycles_ok(*old(z)),
    ensures
        (*final(z), *final(m), *final(io)) == spec_run_table(
            *old(z),
            *old(m),
            *old(io),
            Table::Ed,
        ),
        old(z).cycles <= final(z).cycles <= old(z).cycles + 276,
{
    let op = next_byte(z, m);
    let d = decode_ed(op);
    proof {
        lemma_tables_valid(op);
    }
    exec_decoded(z, m, io, d, Args { nn: 0, n: 0, e: 0 });
}

/// Run the instruction at PC, an opcode after the 0xCB prefix.
pub fn cb<M: Memory16, I: Io16>(z: &mut Z80State, m: &mut M, io: &mut I)
    requires
        cycles_ok(*old(z)),
    ensures
        (*final(z), *final(m), *final(io)) == spec_run_table(
            *old(z),
            *old(m),
            *old(io),
            Table::Cb,
        ),
        old(z).cycles <= final(z).cycles <= old(z).cycles + 276,
{
    let op = next_byte(z, m);
    let d = decode_cb(op);
    proof {
        lemma_tables_valid(op);
    }
    exec_decoded(z, m, io, d, Args { nn: 0, n: 0, e: 0 });
}

/// Run the instruction at PC, an opcode after the 0xDD prefix.
pub fn dd<M: Memory16, I: Io16>(z: &mut Z80State, m: &mut M, io: &mut I)
    requires
        cycles_ok(*old(z)),
    ensures
        (*final(z), *final(m), *final(io)) == spec_run_table(
            *old(z),
            *old(m),
            *old(io),
            Table::Main(Reg16::IX),
        ),
        old(z).cycles <= final(z).cycles <= old(z).cycles + 276,
{
    let op = next_byte(z, m);
    let d = decode_dd(op);
    proof {
        lemma_tables_valid(op);
    }
    exec_decoded(z, m, io, d, Args { nn: 0, n: 0, e: 0 });
}

/// Run the instruction at PC, an opcode after the 0xFD prefix.
pub fn fd<M: Memory16, I: Io16>(z: &mut Z80State, m: &mut M, io: &mut I)
    requires
        cycles_ok(*old(z)),
    ensures
        (*final(z), *final(m), *final(io)) == spec_run_table(
            *old(z),
            *old(m),
            *old(io),
            Table::Main(Reg16::IY),
        ),
        old(z).cycles <= final(z).cycles <= old(z).cycles + 276,
{
    let op = next_byte(z, m);
    let d = decode_fd(op);
    proof {
        lemma_tables_valid(op);
    }
    exec_decoded(z, m, io, d, Args { nn: 0, n: 0, e: 0 });
}

/// Run the instruction at PC: a displacement and an opcode after 0xDD 0xCB.
pub fn ddcb<M: Memory16, I: Io16>(z: &mut Z80State, m: &mut M, io: &mut I)
    requires
        cycles_ok(*old(z)),
    ensures
        (*final(z), *final(m), *final(io)) == spec_run_table(
            *old(z),
            *old(m),
            *old(io),
            Table::IndexCb(Reg16::IX),
        ),
        old(z).cycles <= final(z).cycles <= old(z).cycles + 276,
{
    let d = next_byte(z, m);
    let op = next_byte(z, m);
    let dc = decode_ddcb(op);
    proof {
        lemma_tables_valid(op);
    }
    exec_decoded(z, m, io, dc, Args { nn: 0, n: 0, e: d as i8 });
}

/// Run the instruction at PC: a displacement and an opcode after 0xFD 0xCB.
pub fn fdcb<M: Memory16, I: Io16>(z: &mut Z80State, m: &mut M, io: &mut I)
    requires
        cycles_ok(*old(z)),
    ensures
        (*final(z), *final(m), *final(io)) == spec_run_table(
            *old(z),
            *old(m),
            *old(io),
            Table::IndexCb(Reg16::IY),
        ),
        old(z).cycles <= final(z).cycles <= old(z).cycles + 276,
{
    let d = next_byte(z, m);
    let op = next_byte(z, m);
    let dc = decode_fdcb(op);
    proof {
        lemma_tables_valid(op);
    }
    exec_decoded(z, m, io, dc, Args { nn: 0, n: 0, e: d as i8 });
}

} // verus!
