//! The Z80 opcode tables: which instruction each opcode stands for, which
//! operand bytes follow it, and how many cycles it takes.
//!
//! The tables are stated twice: as the Z80's regular opcode structure (the
//! `x`, `y`, `z` fields of an opcode, `spec_decode_*`), and as explicit
//! tables (`decode_*`) that are proved to agree with it.
use vstd::prelude::*;
use super::alu::Rotation;
use super::internal::{Prefix, Reg16, Reg8};
use super::mem::Logic;
use super::no::ConditionCode;

verus! {

/// The pattern of an 8 bit operand, before the operand bytes are read.
#[derive(Clone, Copy, Debug, PartialEq, Eq, Structural)]
pub enum Pat8 {
    R(Reg8),
    /// The immediate byte `n`.
    N,
    /// The byte addressed by a register.
    At(Reg16),
    /// The byte at the immediate address `nn`.
    AtNN,
    /// The byte at an index register plus the displacement `d`.
    Idx(Reg16),
    /// A constant.
    Lit(u8),
}

/// The pattern of a 16 bit operand, before the operand bytes are read.
#[derive(Clone, Copy, Debug, PartialEq, Eq, Structural)]
pub enum Pat16 {
    R(Reg16),
    /// The immediate word `nn`.
    NN,
    /// The word at the immediate address `nn`.
    AtNN,
    /// The word addressed by a register.
    At(Reg16),
}

/// Which operand bytes follow an opcode.
#[derive(Clone, Copy, Debug, PartialEq, Eq, Structural)]
pub enum Fetch {
    NoFetch,
    /// One immediate byte `n`.
    N,
    /// A little endian immediate word `nn`.
    NN,
    /// One signed byte (a relative jump `e` or a displacement `d`).
    E,
    /// A displacement `d` and then an immediate byte `n`.
    DN,
}

/// A Z80 instruction, with its operands as patterns.
#[derive(Clone, Copy, Debug, PartialEq, Eq, Structural)]
pub enum Instr {
    Nop,
    Ld(Pat8, Pat8),
    Ld16(Pat16, Pat16),
    Push(Reg16),
    Pop(Reg16),
    Ex(Pat16, Reg16),
    Exx,
    /// `ldi` (1) or `ldd` (0xFFFF)
    Ldid(u16),
    /// `ldir` (1) or `lddr` (0xFFFF)
    Ldxr(u16),
    /// `cpi` (1) or `cpd` (0xFFFF)
    Cpid(u16),
    /// `cpir` (1) or `cpdr` (0xFFFF)
    Cpxr(u16),
    /// `add` (or `adc` when the flag is set)
    Add(Reg8, Pat8, bool),
    /// `sub` (or `sbc` when the flag is set)
    Sub(Reg8, Pat8, bool),
    Logic(Logic, Pat8),
    Cp(Pat8),
    /// `inc` (or `dec` when the flag is set)
    IncDec(Pat8, bool),
    Daa,
    Cpl,
    Neg,
    Ccf,
    Scf,
    Halt,
    Di,
    Ei,
    Im(u8),
    Add16(Reg16, Reg16),
    Adc16(Reg16, Reg16),
    Sbc16(Reg16, Reg16),
    Inc16(Reg16),
    Dec16(Reg16),
    /// `rlca`, `rla`, `rrca`, `rra`
    RotA(Rotation),
    /// A rotation or shift, storing the result in a register too if given.
    Rot(Rotation, Pat8, Option<Reg8>),
    /// `rld` (true) or `rrd` (false)
    Rxd(bool),
    Bit(u8, Pat8),
    /// `set` (true) or `res` (false)
    SetRes(u8, Pat8, bool),
    SetStore(u8, Pat8, Reg8),
    ResStore(u8, Pat8, Reg8),
    Jp(Pat16),
    Jpcc(ConditionCode),
    Jr,
    Jrcc(ConditionCode),
    Djnz,
    Call,
    Callcc(ConditionCode),
    Ret,
    Retcc(ConditionCode),
    /// `retn` and `reti`
    Retn,
    Rst(u8),
    InN(Reg8),
    InC(Reg8, Reg8),
    InF(Reg8),
    /// `ini` (1) or `ind` (0xFFFF)
    Inid(u16),
    /// `inir` (1) or `indr` (0xFFFF)
    Inxr(u16),
    OutN(Reg8),
    OutC(Reg8, Pat8),
    /// `outi` (1) or `outd` (0xFFFF)
    Outid(u16),
    /// `otir` (1) or `otdr` (0xFFFF)
    Otxr(u16),
    LdIr(Reg8, Reg8),
    SetPrefix(Prefix),
}

/// An opcode's instruction, the operand bytes that follow it, and the cycles
/// counted for it (some instructions count more cycles themselves).
#[derive(Clone, Copy, Debug, PartialEq, Eq, Structural)]
pub struct Decoded {
    pub instr: Instr,
    pub fetch: Fetch,
    pub cycles: u8,
}

pub open spec fn dec(instr: Instr, fetch: Fetch, cycles: u8) -> Decoded {
    Decoded { instr, fetch, cycles }
}

/// The register that the 3 bit field `r` names (`(HL)` is 6, not named here).
pub open spec fn r_table(r: u8) -> Reg8 {
    if r == 0 {
        Reg8::B
    } else if r == 1 {
        Reg8::C
    } else if r == 2 {
        Reg8::D
    } else if r == 3 {
        Reg8::E
    } else if r == 4 {
        Reg8::H
    } else if r == 5 {
        Reg8::L
    } else {
        Reg8::A
    }
}

/// The register pair that the 2 bit field `p` names, with SP last.
pub open spec fn rp_table(p: u8, hl: Reg16) -> Reg16 {
    if p == 0 {
        Reg16::BC
    } else if p == 1 {
        Reg16::DE
    } else if p == 2 {
        hl
    } else {
        Reg16::SP
    }
}

/// The register pair that the 2 bit field `p` names, with AF last.
pub open spec fn rp2_table(p: u8, hl: Reg16) -> Reg16 {
    if p == 0 {
        Reg16::BC
    } else if p == 1 {
        Reg16::DE
    } else if p == 2 {
        hl
    } else {
        Reg16::AF
    }
}

/// The condition that the 3 bit field `y` names.
pub open spec fn cc_table(y: u8) -> ConditionCode {
    if y == 0 {
        ConditionCode::NZcc
    } else if y == 1 {
        ConditionCode::Zcc
    } else if y == 2 {
        ConditionCode::NCcc
    } else if y == 3 {
        ConditionCode::Ccc
    } else if y == 4 {
        ConditionCode::POcc
    } else if y == 5 {
        ConditionCode::PEcc
    } else if y == 6 {
        ConditionCode::Pcc
    } else {
        ConditionCode::Mcc
    }
}

/// The rotation that the 3 bit field `y` of a CB opcode names.
pub open spec fn rot_table(y: u8) -> Rotation {
    if y == 0 {
        Rotation::Rlc
    } else if y == 1 {
        Rotation::Rrc
    } else if y == 2 {
        Rotation::Rl
    } else if y == 3 {
        Rotation::Rr
    } else if y == 4 {
        Rotation::Sla
    } else if y == 5 {
        Rotation::Sra
    } else if y == 6 {
        Rotation::Sll
    } else {
        Rotation::Srl
    }
}

/// The arithmetic or logic operation that the 3 bit field `y` names, on A
/// and `o`.
pub open spec fn alu_table(y: u8, o: Pat8) -> Instr {
    if y == 0 {
        Instr::Add(Reg8::A, o, false)
    } else if y == 1 {
        Instr::Add(Reg8::A, o, true)
    } else if y == 2 {
        Instr::Sub(Reg8::A, o, false)
    } else if y == 3 {
        Instr::Sub(Reg8::A, o, true)
    } else if y == 4 {
        Instr::Logic(Logic::And, o)
    } else if y == 5 {
        Instr::Logic(Logic::Xor, o)
    } else if y == 6 {
        Instr::Logic(Logic::Or, o)
    } else {
        Instr::Cp(o)
    }
}

/// Is `hl` an index register (so the opcode follows a 0xDD or 0xFD prefix)?
pub open spec fn indexed(hl: Reg16) -> bool {
    hl != Reg16::HL
}

/// The memory operand that `(HL)` becomes under the given index mode.
pub open spec fn mem_pat(hl: Reg16) -> Pat8 {
    if indexed(hl) {
        Pat8::Idx(hl)
    } else {
        Pat8::At(Reg16::HL)
    }
}

/// The 8 bit register field `r` under the given index mode: H and L become
/// the halves of the index register, unless `plain` (the instruction also
/// has a memory operand).
pub open spec fn r_pat(r: u8, hl: Reg16, plain: bool) -> Pat8 {
    if r == 6 {
        mem_pat(hl)
    } else if r == 4 && !plain && hl == Reg16::IX {
        Pat8::R(Reg8::IXH)
    } else if r == 5 && !plain && hl == Reg16::IX {
        Pat8::R(Reg8::IXL)
    } else if r == 4 && !plain && hl == Reg16::IY {
        Pat8::R(Reg8::IYH)
    } else if r == 5 && !plain && hl == Reg16::IY {
        Pat8::R(Reg8::IYL)
    } else {
        Pat8::R(r_table(r))
    }
}

/// Operand fetch for an instruction with a memory operand: an index
/// displacement comes first.
pub open spec fn mem_fetch(f: Fetch, hl: Reg16) -> Fetch {
    if !indexed(hl) {
        f
    } else if f == Fetch::N {
        Fetch::DN
    } else {
        Fetch::E
    }
}

/// Cycles for an instruction with a memory operand: 8 more when indexed.
pub open spec fn mem_cycles(c: u8, hl: Reg16) -> u8 {
    if indexed(hl) {
        (c + 8) as u8
    } else {
        c
    }
}

/// The main opcode table: without prefix (`hl` is HL), or after 0xDD (IX)
/// or 0xFD (IY), where HL, H, L and `(HL)` stand for the index register, its
/// halves, and `(IX+d)`.
#[verifier::opaque]
pub open spec fn spec_decode_main(op: u8, hl: Reg16) -> Decoded {
    let x = op / 64;
    let y = (op / 8) % 8;
    let z = op % 8;
    let p = y / 2;
    let q = y % 2;
    if x == 0 {
        if z == 0 {
            if y == 0 {
                dec(Instr::Nop, Fetch::NoFetch, 4)
            } else if y == 1 {
                dec(
                    Instr::Ex(Pat16::R(Reg16::AF), if indexed(hl) { Reg16::AF0 } else { Reg16::BC0 }),
                    Fetch::NoFetch,
                    4,
                )
            } else if y == 2 {
                dec(Instr::Djnz, Fetch::E, 8)
            } else if y == 3 {
                dec(Instr::Jr, Fetch::E, 12)
            } else {
                dec(Instr::Jrcc(cc_table((y - 4) as u8)), Fetch::E, 0)
            }
        } else if z == 1 {
            if q == 0 {
                dec(Instr::Ld16(Pat16::R(rp_table(p, hl)), Pat16::NN), Fetch::NN, 10)
            } else {
                dec(Instr::Add16(hl, rp_table(p, hl)), Fetch::NoFetch, 11)
            }
        } else if z == 2 {
            if p <= 1 {
                let rr = if p == 0 { Reg16::BC } else { Reg16::DE };
                if q == 0 {
                    dec(Instr::Ld(Pat8::At(rr), Pat8::R(Reg8::A)), Fetch::NoFetch, 7)
                } else {
                    dec(Instr::Ld(Pat8::R(Reg8::A), Pat8::At(rr)), Fetch::NoFetch, 7)
                }
            } else if p == 2 {
                if q == 0 {
                    dec(Instr::Ld16(Pat16::AtNN, Pat16::R(hl)), Fetch::NN, 16)
                } else {
                    dec(Instr::Ld16(Pat16::R(hl), Pat16::AtNN), Fetch::NN, 16)
                }
            } else {
                if q == 0 {
                    dec(Instr::Ld(Pat8::AtNN, Pat8::R(Reg8::A)), Fetch::NN, 13)
                } else {
                    dec(Instr::Ld(Pat8::R(Reg8::A), Pat8::AtNN), Fetch::NN, 13)
                }
            }
        } else if z == 3 {
            if q == 0 {
                dec(Instr::Inc16(rp_table(p, hl)), Fetch::NoFetch, 6)
            } else {
                dec(Instr::Dec16(rp_table(p, hl)), Fetch::NoFetch, 6)
            }
        } else if z == 4 || z == 5 {
            if y == 6 {
                dec(Instr::IncDec(mem_pat(hl), z == 5), mem_fetch(Fetch::NoFetch, hl), mem_cycles(11, hl))
            } else {
                dec(Instr::IncDec(r_pat(y, hl, false), z == 5), Fetch::NoFetch, 4)
            }
        } else if z == 6 {
            if y == 6 {
                dec(Instr::Ld(mem_pat(hl), Pat8::N), mem_fetch(Fetch::N, hl), if indexed(hl) { 15 } else { 10 })
            } else {
                dec(Instr::Ld(r_pat(y, hl, false), Pat8::N), Fetch::N, 7)
            }
        } else {
            let i = if y == 0 {
                Instr::RotA(Rotation::Rlc)
            } else if y == 1 {
                Instr::RotA(Rotation::Rrc)
            } else if y == 2 {
                Instr::RotA(Rotation::Rl)
            } else if y == 3 {
                Instr::RotA(Rotation::Rr)
            } else if y == 4 {
                Instr::Daa
            } else if y == 5 {
                Instr::Cpl
            } else if y == 6 {
                Instr::Scf
            } else {
                Instr::Ccf
            };
            dec(i, Fetch::NoFetch, 4)
        }
    } else if x == 1 {
        if z == 6 && y == 6 {
            dec(Instr::Halt, Fetch::NoFetch, 4)
        } else if y == 6 || z == 6 {
            dec(Instr::Ld(r_pat(y, hl, true), r_pat(z, hl, true)), mem_fetch(Fetch::NoFetch, hl), mem_cycles(7, hl))
        } else {
            dec(Instr::Ld(r_pat(y, hl, false), r_pat(z, hl, false)), Fetch::NoFetch, 4)
        }
    } else if x == 2 {
        if z == 6 {
            dec(alu_table(y, mem_pat(hl)), mem_fetch(Fetch::NoFetch, hl), mem_cycles(7, hl))
        } else {
            dec(alu_table(y, r_pat(z, hl, false)), Fetch::NoFetch, 4)
        }
    } else if z == 0 {
        dec(Instr::Retcc(cc_table(y)), Fetch::NoFetch, if indexed(hl) { 5 } else { 0 })
    } else if z == 1 {
        if q == 0 {
            dec(Instr::Pop(rp2_table(p, hl)), Fetch::NoFetch, 10)
        } else if p == 0 {
            dec(Instr::Ret, Fetch::NoFetch, 10)
        } else if p == 1 {
            dec(Instr::Exx, Fetch::NoFetch, 4)
        } else if p == 2 {
            dec(Instr::Jp(Pat16::R(hl)), Fetch::NoFetch, 4)
        } else {
            dec(Instr::Ld16(Pat16::R(Reg16::SP), Pat16::R(hl)), Fetch::NoFetch, 6)
        }
    } else if z == 2 {
        dec(Instr::Jpcc(cc_table(y)), Fetch::NN, 10)
    } else if z == 3 {
        if y == 0 {
            dec(Instr::Jp(Pat16::NN), Fetch::NN, 10)
        } else if y == 1 {
            let p = if hl == Reg16::IX {
                Prefix::DdCb
            } else if hl == Reg16::IY {
                Prefix::FdCb
            } else {
                Prefix::Cb
            };
            dec(Instr::SetPrefix(p), Fetch::NoFetch, 0)
        } else if y == 2 {
            dec(Instr::OutN(Reg8::A), Fetch::N, 11)
        } else if y == 3 {
            dec(Instr::InN(Reg8::A), Fetch::N, 11)
        } else if y == 4 {
            dec(Instr::Ex(Pat16::At(Reg16::SP), hl), Fetch::NoFetch, 19)
        } else if y == 5 {
            dec(Instr::Ex(Pat16::R(Reg16::DE), Reg16::HL), Fetch::NoFetch, 4)
        } else if y == 6 {
            dec(Instr::Di, Fetch::NoFetch, 4)
        } else {
            dec(Instr::Ei, Fetch::NoFetch, 4)
        }
    } else if z == 4 {
        dec(Instr::Callcc(cc_table(y)), Fetch::NN, 0)
    } else if z == 5 {
        if q == 0 {
            dec(Instr::Push(rp2_table(p, hl)), Fetch::NoFetch, 11)
        } else if p == 0 {
            dec(Instr::Call, Fetch::NN, if indexed(hl) { 17 } else { 0 })
        } else if p == 1 {
            dec(Instr::SetPrefix(Prefix::Dd), Fetch::NoFetch, 4)
        } else if p == 2 {
            dec(Instr::SetPrefix(Prefix::Ed), Fetch::NoFetch, if indexed(hl) { 4 } else { 0 })
        } else {
            dec(Instr::SetPrefix(Prefix::Fd), Fetch::NoFetch, 4)
        }
    } else if z == 6 {
        dec(alu_table(y, Pat8::N), Fetch::N, 7)
    } else {
        dec(Instr::Rst((y * 8) as u8), Fetch::NoFetch, 11)
    }
}

/// The 0xCB table: rotations and shifts, `bit`, `res` and `set`.
#[verifier::opaque]
pub open spec fn spec_decode_cb(op: u8) -> Decoded {
    let x = op / 64;
    let y = (op / 8) % 8;
    let z = op % 8;
    let o = r_pat(z, Reg16::HL, false);
    if x == 0 {
        dec(Instr::Rot(rot_table(y), o, None), Fetch::NoFetch, if z == 6 { 15 } else { 8 })
    } else if x == 1 {
        dec(Instr::Bit(y, o), Fetch::NoFetch, if z == 6 { 12 } else { 8 })
    } else {
        dec(Instr::SetRes(y, o, x == 3), Fetch::NoFetch, if z == 6 { 15 } else { 8 })
    }
}

/// The 0xDDCB and 0xFDCB tables: the 0xCB instructions on `(IX+d)`, also
/// storing the result in the register the opcode names.
#[verifier::opaque]
pub open spec fn spec_decode_index_cb(op: u8, ix: Reg16) -> Decoded {
    let x = op / 64;
    let y = (op / 8) % 8;
    let z = op % 8;
    let o = Pat8::Idx(ix);
    if x == 1 {
        dec(Instr::Bit(y, o), Fetch::NoFetch, 16)
    } else if z == 6 {
        if x == 0 {
            dec(Instr::Rot(rot_table(y), o, None), Fetch::NoFetch, 19)
        } else {
            dec(Instr::SetRes(y, o, x == 3), Fetch::NoFetch, 19)
        }
    } else if x == 0 {
        dec(Instr::Rot(rot_table(y), o, Some(r_table(z))), Fetch::NoFetch, 19)
    } else if x == 2 {
        dec(Instr::ResStore(y, o, r_table(z)), Fetch::NoFetch, 19)
    } else {
        dec(Instr::SetStore(y, o, r_table(z)), Fetch::NoFetch, 19)
    }
}

/// A 16 bit register, with IY in place of IX.
pub open spec fn iy_for_ix16(r: Reg16) -> Reg16 {
    if r == Reg16::IX {
        Reg16::IY
    } else {
        r
    }
}

/// An 8 bit register, with the halves of IY in place of those of IX.
pub open spec fn iy_for_ix8(r: Reg8) -> Reg8 {
    if r == Reg8::IXH {
        Reg8::IYH
    } else if r == Reg8::IXL {
        Reg8::IYL
    } else {
        r
    }
}

/// An 8 bit operand pattern, with IY in place of IX.
pub open spec fn pat8_iy_for_ix(p: Pat8) -> Pat8 {
    match p {
        Pat8::R(r) => Pat8::R(iy_for_ix8(r)),
        Pat8::At(r) => Pat8::At(iy_for_ix16(r)),
        Pat8::Idx(r) => Pat8::Idx(iy_for_ix16(r)),
        _ => p,
    }
}

/// A 16 bit operand pattern, with IY in place of IX.
pub open spec fn pat16_iy_for_ix(p: Pat16) -> Pat16 {
    match p {
        Pat16::R(r) => Pat16::R(iy_for_ix16(r)),
        Pat16::At(r) => Pat16::At(iy_for_ix16(r)),
        _ => p,
    }
}

/// An instruction with IY in place of IX, the halves of IY in place of
/// those of IX, and the 0xFD 0xCB prefix in place of 0xDD 0xCB.
pub open spec fn instr_iy_for_ix(i: Instr) -> Instr {
    match i {
        Instr::Ld(a, b) => Instr::Ld(pat8_iy_for_ix(a), pat8_iy_for_ix(b)),
        Instr::Ld16(a, b) => Instr::Ld16(pat16_iy_for_ix(a), pat16_iy_for_ix(b)),
        Instr::Push(r) => Instr::Push(iy_for_ix16(r)),
        Instr::Pop(r) => Instr::Pop(iy_for_ix16(r)),
        Instr::Ex(a, r) => Instr::Ex(pat16_iy_for_ix(a), iy_for_ix16(r)),
        Instr::Add(r, p, c) => Instr::Add(iy_for_ix8(r), pat8_iy_for_ix(p), c),
        Instr::Sub(r, p, c) => Instr::Sub(iy_for_ix8(r), pat8_iy_for_ix(p), c),
        Instr::Logic(l, p) => Instr::Logic(l, pat8_iy_for_ix(p)),
        Instr::Cp(p) => Instr::Cp(pat8_iy_for_ix(p)),
        Instr::IncDec(p, d) => Instr::IncDec(pat8_iy_for_ix(p), d),
        Instr::Add16(a, b) => Instr::Add16(iy_for_ix16(a), iy_for_ix16(b)),
        Instr::Adc16(a, b) => Instr::Adc16(iy_for_ix16(a), iy_for_ix16(b)),
        Instr::Sbc16(a, b) => Instr::Sbc16(iy_for_ix16(a), iy_for_ix16(b)),
        Instr::Inc16(r) => Instr::Inc16(iy_for_ix16(r)),
        Instr::Dec16(r) => Instr::Dec16(iy_for_ix16(r)),
        Instr::Rot(t, p, s) => Instr::Rot(
            t,
            pat8_iy_for_ix(p),
            match s {
                Some(r) => Some(iy_for_ix8(r)),
                None => None,
            },
        ),
        Instr::Bit(b, p) => Instr::Bit(b, pat8_iy_for_ix(p)),
        Instr::SetRes(b, p, s) => Instr::SetRes(b, pat8_iy_for_ix(p), s),
        Instr::SetStore(b, p, r) => Instr::SetStore(b, pat8_iy_for_ix(p), iy_for_ix8(r)),
        Instr::ResStore(b, p, r) => Instr::ResStore(b, pat8_iy_for_ix(p), iy_for_ix8(r)),
        Instr::Jp(p) => Instr::Jp(pat16_iy_for_ix(p)),
        Instr::InN(r) => Instr::InN(iy_for_ix8(r)),
        Instr::InC(a, b) => Instr::InC(iy_for_ix8(a), iy_for_ix8(b)),
        Instr::InF(r) => Instr::InF(iy_for_ix8(r)),
        Instr::OutN(r) => Instr::OutN(iy_for_ix8(r)),
        Instr::OutC(r, p) => Instr::OutC(iy_for_ix8(r), pat8_iy_for_ix(p)),
        Instr::LdIr(a, b) => Instr::LdIr(iy_for_ix8(a), iy_for_ix8(b)),
        Instr::SetPrefix(Prefix::DdCb) => Instr::SetPrefix(Prefix::FdCb),
        _ => i,
    }
}

/// A decoded opcode with IY in place of IX: the same operand bytes and cycles.
pub open spec fn decoded_iy_for_ix(d: Decoded) -> Decoded {
    dec(instr_iy_for_ix(d.instr), d.fetch, d.cycles)
}

/// The 0xED table; opcodes it does not define are 8 cycle no-ops.
#[verifier::opaque]
pub open spec fn spec_decode_ed(op: u8) -> Decoded {
    let x = op / 64;
    let y = (op / 8) % 8;
    let z = op % 8;
    let p = y / 2;
    let q = y % 2;
    if x == 1 {
        if z == 0 {
            if y == 6 {
                dec(Instr::InF(Reg8::C), Fetch::NoFetch, 12)
            } else {
                dec(Instr::InC(r_table(y), Reg8::C), Fetch::NoFetch, 12)
            }
        } else if z == 1 {
            if y == 6 {
                dec(Instr::OutC(Reg8::C, Pat8::Lit(0)), Fetch::NoFetch, 12)
            } else {
                dec(Instr::OutC(Reg8::C, Pat8::R(r_table(y))), Fetch::NoFetch, 12)
            }
        } else if z == 2 {
            if q == 0 {
                dec(Instr::Sbc16(Reg16::HL, rp_table(p, Reg16::HL)), Fetch::NoFetch, 15)
            } else {
                dec(Instr::Adc16(Reg16::HL, rp_table(p, Reg16::HL)), Fetch::NoFetch, 15)
            }
        } else if z == 3 {
            if q == 0 {
                dec(Instr::Ld16(Pat16::AtNN, Pat16::R(rp_table(p, Reg16::HL))), Fetch::NN, 20)
            } else {
                dec(Instr::Ld16(Pat16::R(rp_table(p, Reg16::HL)), Pat16::AtNN), Fetch::NN, 20)
            }
        } else if z == 4 {
            dec(Instr::Neg, Fetch::NoFetch, 8)
        } else if z == 5 {
            dec(Instr::Retn, Fetch::NoFetch, 14)
        } else if z == 6 {
            let mode: u8 = if y == 2 || y == 6 {
                1
            } else if y == 3 || y == 7 {
                2
            } else {
                0
            };
            dec(Instr::Im(mode), Fetch::NoFetch, 8)
        } else if y == 0 {
            dec(Instr::Ld(Pat8::R(Reg8::I), Pat8::R(Reg8::A)), Fetch::NoFetch, 9)
        } else if y == 1 {
            dec(Instr::Ld(Pat8::R(Reg8::R), Pat8::R(Reg8::A)), Fetch::NoFetch, 9)
        } else if y == 2 {
            dec(Instr::LdIr(Reg8::A, Reg8::I), Fetch::NoFetch, 9)
        } else if y == 3 {
            dec(Instr::LdIr(Reg8::A, Reg8::R), Fetch::NoFetch, 9)
        } else if y == 4 {
            dec(Instr::Rxd(false), Fetch::NoFetch, 18)
        } else if y == 5 {
            dec(Instr::Rxd(true), Fetch::NoFetch, 18)
        } else {
            dec(Instr::Nop, Fetch::NoFetch, 8)
        }
    } else if x == 2 && y >= 4 && z <= 3 {
        let inc: u16 = if y % 2 == 0 { 1 } else { 0xFFFF };
        if y >= 6 {
            let i = if z == 0 {
                Instr::Ldxr(inc)
            } else if z == 1 {
                Instr::Cpxr(inc)
            } else if z == 2 {
                Instr::Inxr(inc)
            } else {
                Instr::Otxr(inc)
            };
            dec(i, Fetch::NoFetch, 0)
        } else {
            let i = if z == 0 {
                Instr::Ldid(inc)
            } else if z == 1 {
                Instr::Cpid(inc)
            } else if z == 2 {
                Instr::Inid(inc)
            } else {
                Instr::Outid(inc)
            };
            dec(i, Fetch::NoFetch, 16)
        }
    } else {
        dec(Instr::Nop, Fetch::NoFetch, 8)
    }
}

/// The instruction an opcode without prefix stands for.
pub fn decode_noprefix(op: u8) -> (d: Decoded)
    ensures
        d == spec_decode_main(op, Reg16::HL),
{
    reveal(spec_decode_main);
    match op {
        0x00 => Decoded { instr: Instr::Nop, fetch: Fetch::NoFetch, cycles: 4 },
        0x01 => Decoded { instr: Instr::Ld16(Pat16::R(Reg16::BC), Pat16::NN), fetch: Fetch::NN, cycles: 10 },
        0x02 => Decoded { instr: Instr::Ld(Pat8::At(Reg16::BC), Pat8::R(Reg8::A)), fetch: Fetch::NoFetch, cycles: 7 },
        0x03 => Decoded { instr: Instr::Inc16(Reg16::BC), fetch: Fetch::NoFetch, cycles: 6 },
        0x04 => Decoded { instr: Instr::IncDec(Pat8::R(Reg8::B), false), fetch: Fetch::NoFetch, cycles: 4 },
        0x05 => Decoded { instr: Instr::IncDec(Pat8::R(Reg8::B), true), fetch: Fetch::NoFetch, cycles: 4 },
        0x06 => Decoded { instr: Instr::Ld(Pat8::R(Reg8::B), Pat8::N), fetch: Fetch::N, cycles: 7 },
        0x07 => Decoded { instr: Instr::RotA(Rotation::Rlc), fetch: Fetch::NoFetch, cycles: 4 },
        0x08 => Decoded { instr: Instr::Ex(Pat16::R(Reg16::AF), Reg16::BC0), fetch: Fetch::NoFetch, cycles: 4 },
        0x09 => Decoded { instr: Instr::Add16(Reg16::HL, Reg16::BC), fetch: Fetch::NoFetch, cycles: 11 },
        0x0A => Decoded { instr: Instr::Ld(Pat8::R(Reg8::A), Pat8::At(Reg16::BC)), fetch: Fetch::NoFetch, cycles: 7 },
        0x0B => Decoded { instr: Instr::Dec16(Reg16::BC), fetch: Fetch::NoFetch, cycles: 6 },
        0x0C => Decoded { instr: Instr::IncDec(Pat8::R(Reg8::C), false), fetch: Fetch::NoFetch, cycles: 4 },
        0x0D => Decoded { instr: Instr::IncDec(Pat8::R(Reg8::C), true), fetch: Fetch::NoFetch, cycles: 4 },
        0x0E => Decoded { instr: Instr::Ld(Pat8::R(Reg8::C), Pat8::N), fetch: Fetch::N, cycles: 7 },
        0x0F => Decoded { instr: Instr::RotA(Rotation::Rrc), fetch: Fetch::NoFetch, cycles: 4 },
        0x10 => Decoded { instr: Instr::Djnz, fetch: Fetch::E, cycles: 8 },
        0x11 => Decoded { instr: Instr::Ld16(Pat16::R(Reg16::DE), Pat16::NN), fetch: Fetch::NN, cycles: 10 },
        0x12 => Decoded { instr: Instr::Ld(Pat8::At(Reg16::DE), Pat8::R(Reg8::A)), fetch: Fetch::NoFetch, cycles: 7 },
        0x13 => Decoded { instr: Instr::Inc16(Reg16::DE), fetch: Fetch::NoFetch, cycles: 6 },
        0x14 => Decoded { instr: Instr::IncDec(Pat8::R(Reg8::D), false), fetch: Fetch::NoFetch, cycles: 4 },
        0x15 => Decoded { instr: Instr::IncDec(Pat8::R(Reg8::D), true), fetch: Fetch::NoFetch, cycles: 4 },
        0x16 => Decoded { instr: Instr::Ld(Pat8::R(Reg8::D), Pat8::N), fetch: Fetch::N, cycles: 7 },
        0x17 => Decoded { instr: Instr::RotA(Rotation::Rl), fetch: Fetch::NoFetch, cycles: 4 },
        0x18 => Decoded { instr: Instr::Jr, fetch: Fetch::E, cycles: 12 },
        0x19 => Decoded { instr: Instr::Add16(Reg16::HL, Reg16::DE), fetch: Fetch::NoFetch, cycles: 11 },
        0x1A => Decoded { instr: Instr::Ld(Pat8::R(Reg8::A), Pat8::At(Reg16::DE)), fetch: Fetch::NoFetch, cycles: 7 },
        0x1B => Decoded { instr: Instr::Dec16(Reg16::DE), fetch: Fetch::NoFetch, cycles: 6 },
        0x1C => Decoded { instr: Instr::IncDec(Pat8::R(Reg8::E), false), fetch: Fetch::NoFetch, cycles: 4 },
        0x1D => Decoded { instr: Instr::IncDec(Pat8::R(Reg8::E), true), fetch: Fetch::NoFetch, cycles: 4 },
        0x1E => Decoded { instr: Instr::Ld(Pat8::R(Reg8::E), Pat8::N), fetch: Fetch::N, cycles: 7 },
        0x1F => Decoded { instr: Instr::RotA(Rotation::Rr), fetch: Fetch::NoFetch, cycles: 4 },
        0x20 => Decoded { instr: Instr::Jrcc(ConditionCode::NZcc), fetch: Fetch::E, cycles: 0 },
        0x21 => Decoded { instr: Instr::Ld16(Pat16::R(Reg16::HL), Pat16::NN), fetch: Fetch::NN, cycles: 10 },
        0x22 => Decoded { instr: Instr::Ld16(Pat16::AtNN, Pat16::R(Reg16::HL)), fetch: Fetch::NN, cycles: 16 },
        0x23 => Decoded { instr: Instr::Inc16(Reg16::HL), fetch: Fetch::NoFetch, cycles: 6 },
        0x24 => Decoded { instr: Instr::IncDec(Pat8::R(Reg8::H), false), fetch: Fetch::NoFetch, cycles: 4 },
        0x25 => Decoded { instr: Instr::IncDec(Pat8::R(Reg8::H), true), fetch: Fetch::NoFetch, cycles: 4 },
        0x26 => Decoded { instr: Instr::Ld(Pat8::R(Reg8::H), Pat8::N), fetch: Fetch::N, cycles: 7 },
        0x27 => Decoded { instr: Instr::Daa, fetch: Fetch::NoFetch, cycles: 4 },
        0x28 => Decoded { instr: Instr::Jrcc(ConditionCode::Zcc), fetch: Fetch::E, cycles: 0 },
        0x29 => Decoded { instr: Instr::Add16(Reg16::HL, Reg16::HL), fetch: Fetch::NoFetch, cycles: 11 },
        0x2A => Decoded { instr: Instr::Ld16(Pat16::R(Reg16::HL), Pat16::AtNN), fetch: Fetch::NN, cycles: 16 },
        0x2B => Decoded { instr: Instr::Dec16(Reg16::HL), fetch: Fetch::NoFetch, cycles: 6 },
        0x2C => Decoded { instr: Instr::IncDec(Pat8::R(Reg8::L), false), fetch: Fetch::NoFetch, cycles: 4 },
        0x2D => Decoded { instr: Instr::IncDec(Pat8::R(Reg8::L), true), fetch: Fetch::NoFetch, cycles: 4 },
        0x2E => Decoded { instr: Instr::Ld(Pat8::R(Reg8::L), Pat8::N), fetch: Fetch::N, cycles: 7 },
        0x2F => Decoded { instr: Instr::Cpl, fetch: Fetch::NoFetch, cycles: 4 },
        0x30 => Decoded { instr: Instr::Jrcc(ConditionCode::NCcc), fetch: Fetch::E, cycles: 0 },
        0x31 => Decoded { instr: Instr::Ld16(Pat16::R(Reg16::SP), Pat16::NN), fetch: Fetch::NN, cycles: 10 },
        0x32 => Decoded { instr: Instr::Ld(Pat8::AtNN, Pat8::R(Reg8::A)), fetch: Fetch::NN, cycles: 13 },
        0x33 => Decoded { instr: Instr::Inc16(Reg16::SP), fetch: Fetch::NoFetch, cycles: 6 },
        0x34 => Decoded { instr: Instr::IncDec(Pat8::At(Reg16::HL), false), fetch: Fetch::NoFetch, cycles: 11 },
        0x35 => Decoded { instr: Instr::IncDec(Pat8::At(Reg16::HL), true), fetch: Fetch::NoFetch, cycles: 11 },
        0x36 => Decoded { instr: Instr::Ld(Pat8::At(Reg16::HL), Pat8::N), fetch: Fetch::N, cycles: 10 },
        0x37 => Decoded { instr: Instr::Scf, fetch: Fetch::NoFetch, cycles: 4 },
        0x38 => Decoded { instr: Instr::Jrcc(ConditionCode::Ccc), fetch: Fetch::E, cycles: 0 },
        0x39 => Decoded { instr: Instr::Add16(Reg16::HL, Reg16::SP), fetch: Fetch::NoFetch, cycles: 11 },
        0x3A => Decoded { instr: Instr::Ld(Pat8::R(Reg8::A), Pat8::AtNN), fetch: Fetch::NN, cycles: 13 },
        0x3B => Decoded { instr: Instr::Dec16(Reg16::SP), fetch: Fetch::NoFetch, cycles: 6 },
        0x3C => Decoded { instr: Instr::IncDec(Pat8::R(Reg8::A), false), fetch: Fetch::NoFetch, cycles: 4 },
        0x3D => Decoded { instr: Instr::IncDec(Pat8::R(Reg8::A), true), fetch: Fetch::NoFetch, cycles: 4 },
        0x3E => Decoded { instr: Instr::Ld(Pat8::R(Reg8::A), Pat8::N), fetch: Fetch::N, cycles: 7 },
        0x3F => Decoded { instr: Instr::Ccf, fetch: Fetch::NoFetch, cycles: 4 },
        0x40 => Decoded { instr: Instr::Ld(Pat8::R(Reg8::B), Pat8::R(Reg8::B)), fetch: Fetch::NoFetch, cycles: 4 },
        0x41 => Decoded { instr: Instr::Ld(Pat8::R(Reg8::B), Pat8::R(Reg8::C)), fetch: Fetch::NoFetch, cycles: 4 },
        0x42 => Decoded { instr: Instr::Ld(Pat8::R(Reg8::B), Pat8::R(Reg8::D)), fetch: Fetch::NoFetch, cycles: 4 },
        0x43 => Decoded { instr: Instr::Ld(Pat8::R(Reg8::B), Pat8::R(Reg8::E)), fetch: Fetch::NoFetch, cycles: 4 },
        0x44 => Decoded { instr: Instr::Ld(Pat8::R(Reg8::B), Pat8::R(Reg8::H)), fetch: Fetch::NoFetch, cycles: 4 },
        0x45 => Decoded { instr: Instr::Ld(Pat8::R(Reg8::B), Pat8::R(Reg8::L)), fetch: Fetch::NoFetch, cycles: 4 },
        0x46 => Decoded { instr: Instr::Ld(Pat8::R(Reg8::B), Pat8::At(Reg16::HL)), fetch: Fetch::NoFetch, cycles: 7 },
        0x47 => Decoded { instr: Instr::Ld(Pat8::R(Reg8::B), Pat8::R(Reg8::A)), fetch: Fetch::NoFetch, cycles: 4 },
        0x48 => Decoded { instr: Instr::Ld(Pat8::R(Reg8::C), Pat8::R(Reg8::B)), fetch: Fetch::NoFetch, cycles: 4 },
        0x49 => Decoded { instr: Instr::Ld(Pat8::R(Reg8::C), Pat8::R(Reg8::C)), fetch: Fetch::NoFetch, cycles: 4 },
        0x4A => Decoded { instr: Instr::Ld(Pat8::R(Reg8::C), Pat8::R(Reg8::D)), fetch: Fetch::NoFetch, cycles: 4 },
        0x4B => Decoded { instr: Instr::Ld(Pat8::R(Reg8::C), Pat8::R(Reg8::E)), fetch: Fetch::NoFetch, cycles: 4 },
        0x4C => Decoded { instr: Instr::Ld(Pat8::R(Reg8::C), Pat8::R(Reg8::H)), fetch: Fetch::NoFetch, cycles: 4 },
        0x4D => Decoded { instr: Instr::Ld(Pat8::R(Reg8::C), Pat8::R(Reg8::L)), fetch: Fetch::NoFetch, cycles: 4 },
        0x4E => Decoded { instr: Instr::Ld(Pat8::R(Reg8::C), Pat8::At(Reg16::HL)), fetch: Fetch::NoFetch, cycles: 7 },
        0x4F => Decoded { instr: Instr::Ld(Pat8::R(Reg8::C), Pat8::R(Reg8::A)), fetch: Fetch::NoFetch, cycles: 4 },
        0x50 => Decoded { instr: Instr::Ld(Pat8::R(Reg8::D), Pat8::R(Reg8::B)), fetch: Fetch::NoFetch, cycles: 4 },
        0x51 => Decoded { instr: Instr::Ld(Pat8::R(Reg8::D), Pat8::R(Reg8::C)), fetch: Fetch::NoFetch, cycles: 4 },
        0x52 => Decoded { instr: Instr::Ld(Pat8::R(Reg8::D), Pat8::R(Reg8::D)), fetch: Fetch::NoFetch, cycles: 4 },
        0x53 => Decoded { instr: Instr::Ld(Pat8::R(Reg8::D), Pat8::R(Reg8::E)), fetch: Fetch::NoFetch, cycles: 4 },
        0x54 => Decoded { instr: Instr::Ld(Pat8::R(Reg8::D), Pat8::R(Reg8::H)), fetch: Fetch::NoFetch, cycles: 4 },
        0x55 => Decoded { instr: Instr::Ld(Pat8::R(Reg8::D), Pat8::R(Reg8::L)), fetch: Fetch::NoFetch, cycles: 4 },
        0x56 => Decoded { instr: Instr::Ld(Pat8::R(Reg8::D), Pat8::At(Reg16::HL)), fetch: Fetch::NoFetch, cycles: 7 },
        0x57 => Decoded { instr: Instr::Ld(Pat8::R(Reg8::D), Pat8::R(Reg8::A)), fetch: Fetch::NoFetch, cycles: 4 },
        0x58 => Decoded { instr: Instr::Ld(Pat8::R(Reg8::E), Pat8::R(Reg8::B)), fetch: Fetch::NoFetch, cycles: 4 },
        0x59 => Decoded { instr: Instr::Ld(Pat8::R(Reg8::E), Pat8::R(Reg8::C)), fetch: Fetch::NoFetch, cycles: 4 },
        0x5A => Decoded { instr: Instr::Ld(Pat8::R(Reg8::E), Pat8::R(Reg8::D)), fetch: Fetch::NoFetch, cycles: 4 },
        0x5B => Decoded { instr: Instr::Ld(Pat8::R(Reg8::E), Pat8::R(Reg8::E)), fetch: Fetch::NoFetch, cycles: 4 },
        0x5C => Decoded { instr: Instr::Ld(Pat8::R(Reg8::E), Pat8::R(Reg8::H)), fetch: Fetch::NoFetch, cycles: 4 },
        0x5D => Decoded { instr: Instr::Ld(Pat8::R(Reg8::E), Pat8::R(Reg8::L)), fetch: Fetch::NoFetch, cycles: 4 },
        0x5E => Decoded { instr: Instr::Ld(Pat8::R(Reg8::E), Pat8::At(Reg16::HL)), fetch: Fetch::NoFetch, cycles: 7 },
        0x5F => Decoded { instr: Instr::Ld(Pat8::R(Reg8::E), Pat8::R(Reg8::A)), fetch: Fetch::NoFetch, cycles: 4 },
        0x60 => Decoded { instr: Instr::Ld(Pat8::R(Reg8::H), Pat8::R(Reg8::B)), fetch: Fetch::NoFetch, cycles: 4 },
        0x61 => Decoded { instr: Instr::Ld(Pat8::R(Reg8::H), Pat8::R(Reg8::C)), fetch: Fetch::NoFetch, cycles: 4 },
        0x62 => Decoded { instr: Instr::Ld(Pat8::R(Reg8::H), Pat8::R(Reg8::D)), fetch: Fetch::NoFetch, cycles: 4 },
        0x63 => Decoded { instr: Instr::Ld(Pat8::R(Reg8::H), Pat8::R(Reg8::E)), fetch: Fetch::NoFetch, cycles: 4 },
        0x64 => Decoded { instr: Instr::Ld(Pat8::R(Reg8::H), Pat8::R(Reg8::H)), fetch: Fetch::NoFetch, cycles: 4 },
        0x65 => Decoded { instr: Instr::Ld(Pat8::R(Reg8::H), Pat8::R(Reg8::L)), fetch: Fetch::NoFetch, cycles: 4 },
        0x66 => Decoded { instr: Instr::Ld(Pat8::R(Reg8::H), Pat8::At(Reg16::HL)), fetch: Fetch::NoFetch, cycles: 7 },
        0x67 => Decoded { instr: Instr::Ld(Pat8::R(Reg8::H), Pat8::R(Reg8::A)), fetch: Fetch::NoFetch, cycles: 4 },
        0x68 => Decoded { instr: Instr::Ld(Pat8::R(Reg8::L), Pat8::R(Reg8::B)), fetch: Fetch::NoFetch, cycles: 4 },
        0x69 => Decoded { instr: Instr::Ld(Pat8::R(Reg8::L), Pat8::R(Reg8::C)), fetch: Fetch::NoFetch, cycles: 4 },
        0x6A => Decoded { instr: Instr::Ld(Pat8::R(Reg8::L), Pat8::R(Reg8::D)), fetch: Fetch::NoFetch, cycles: 4 },
        0x6B => Decoded { instr: Instr::Ld(Pat8::R(Reg8::L), Pat8::R(Reg8::E)), fetch: Fetch::NoFetch, cycles: 4 },
        0x6C => Decoded { instr: Instr::Ld(Pat8::R(Reg8::L), Pat8::R(Reg8::H)), fetch: Fetch::NoFetch, cycles: 4 },
        0x6D => Decoded { instr: Instr::Ld(Pat8::R(Reg8::L), Pat8::R(Reg8::L)), fetch: Fetch::NoFetch, cycles: 4 },
        0x6E => Decoded { instr: Instr::Ld(Pat8::R(Reg8::L), Pat8::At(Reg16::HL)), fetch: Fetch::NoFetch, cycles: 7 },
        0x6F => Decoded { instr: Instr::Ld(Pat8::R(Reg8::L), Pat8::R(Reg8::A)), fetch: Fetch::NoFetch, cycles: 4 },
        0x70 => Decoded { instr: Instr::Ld(Pat8::At(Reg16::HL), Pat8::R(Reg8::B)), fetch: Fetch::NoFetch, cycles: 7 },
        0x71 => Decoded { instr: Instr::Ld(Pat8::At(Reg16::HL), Pat8::R(Reg8::C)), fetch: Fetch::NoFetch, cycles: 7 },
        0x72 => Decoded { instr: Instr::Ld(Pat8::At(Reg16::HL), Pat8::R(Reg8::D)), fetch: Fetch::NoFetch, cycles: 7 },
        0x73 => Decoded { instr: Instr::Ld(Pat8::At(Reg16::HL), Pat8::R(Reg8::E)), fetch: Fetch::NoFetch, cycles: 7 },
        0x74 => Decoded { instr: Instr::Ld(Pat8::At(Reg16::HL), Pat8::R(Reg8::H)), fetch: Fetch::NoFetch, cycles: 7 },
        0x75 => Decoded { instr: Instr::Ld(Pat8::At(Reg16::HL), Pat8::R(Reg8::L)), fetch: Fetch::NoFetch, cycles: 7 },
        0x76 => Decoded { instr: Instr::Halt, fetch: Fetch::NoFetch, cycles: 4 },
        0x77 => Decoded { instr: Instr::Ld(Pat8::At(Reg16::HL), Pat8::R(Reg8::A)), fetch: Fetch::NoFetch, cycles: 7 },
        0x78 => Decoded { instr: Instr::Ld(Pat8::R(Reg8::A), Pat8::R(Reg8::B)), fetch: Fetch::NoFetch, cycles: 4 },
        0x79 => Decoded { instr: Instr::Ld(Pat8::R(Reg8::A), Pat8::R(Reg8::C)), fetch: Fetch::NoFetch, cycles: 4 },
        0x7A => Decoded { instr: Instr::Ld(Pat8::R(Reg8::A), Pat8::R(Reg8::D)), fetch: Fetch::NoFetch, cycles: 4 },
        0x7B => Decoded { instr: Instr::Ld(Pat8::R(Reg8::A), Pat8::R(Reg8::E)), fetch: Fetch::NoFetch, cycles: 4 },
        0x7C => Decoded { instr: Instr::Ld(Pat8::R(Reg8::A), Pat8::R(Reg8::H)), fetch: Fetch::NoFetch, cycles: 4 },
        0x7D => Decoded { instr: Instr::Ld(Pat8::R(Reg8::A), Pat8::R(Reg8::L)), fetch: Fetch::NoFetch, cycles: 4 },
        0x7E => Decoded { instr: Instr::Ld(Pat8::R(Reg8::A), Pat8::At(Reg16::HL)), fetch: Fetch::NoFetch, cycles: 7 },
        0x7F => Decoded { instr: Instr::Ld(Pat8::R(Reg8::A), Pat8::R(Reg8::A)), fetch: Fetch::NoFetch, cycles: 4 },
        0x80 => Decoded { instr: Instr::Add(Reg8::A, Pat8::R(Reg8::B), false), fetch: Fetch::NoFetch, cycles: 4 },
        0x81 => Decoded { instr: Instr::Add(Reg8::A, Pat8::R(Reg8::C), false), fetch: Fetch::NoFetch, cycles: 4 },
        0x82 => Decoded { instr: Instr::Add(Reg8::A, Pat8::R(Reg8::D), false), fetch: Fetch::NoFetch, cycles: 4 },
        0x83 => Decoded { instr: Instr::Add(Reg8::A, Pat8::R(Reg8::E), false), fetch: Fetch::NoFetch, cycles: 4 },
        0x84 => Decoded { instr: Instr::Add(Reg8::A, Pat8::R(Reg8::H), false), fetch: Fetch::NoFetch, cycles: 4 },
        0x85 => Decoded { instr: Instr::Add(Reg8::A, Pat8::R(Reg8::L), false), fetch: Fetch::NoFetch, cycles: 4 },
        0x86 => Decoded { instr: Instr::Add(Reg8::A, Pat8::At(Reg16::HL), false), fetch: Fetch::NoFetch, cycles: 7 },
        0x87 => Decoded { instr: Instr::Add(Reg8::A, Pat8::R(Reg8::A), false), fetch: Fetch::NoFetch, cycles: 4 },
        0x88 => Decoded { instr: Instr::Add(Reg8::A, Pat8::R(Reg8::B), true), fetch: Fetch::NoFetch, cycles: 4 },
        0x89 => Decoded { instr: Instr::Add(Reg8::A, Pat8::R(Reg8::C), true), fetch: Fetch::NoFetch, cycles: 4 },
        0x8A => Decoded { instr: Instr::Add(Reg8::A, Pat8::R(Reg8::D), true), fetch: Fetch::NoFetch, cycles: 4 },
        0x8B => Decoded { instr: Instr::Add(Reg8::A, Pat8::R(Reg8::E), true), fetch: Fetch::NoFetch, cycles: 4 },
        0x8C => Decoded { instr: Instr::Add(Reg8::A, Pat8::R(Reg8::H), true), fetch: Fetch::NoFetch, cycles: 4 },
        0x8D => Decoded { instr: Instr::Add(Reg8::A, Pat8::R(Reg8::L), true), fetch: Fetch::NoFetch, cycles: 4 },
        0x8E => Decoded { instr: Instr::Add(Reg8::A, Pat8::At(Reg16::HL), true), fetch: Fetch::NoFetch, cycles: 7 },
        0x8F => Decoded { instr: Instr::Add(Reg8::A, Pat8::R(Reg8::A), true), fetch: Fetch::NoFetch, cycles: 4 },
        0x90 => Decoded { instr: Instr::Sub(Reg8::A, Pat8::R(Reg8::B), false), fetch: Fetch::NoFetch, cycles: 4 },
        0x91 => Decoded { instr: Instr::Sub(Reg8::A, Pat8::R(Reg8::C), false), fetch: Fetch::NoFetch, cycles: 4 },
        0x92 => Decoded { instr: Instr::Sub(Reg8::A, Pat8::R(Reg8::D), false), fetch: Fetch::NoFetch, cycles: 4 },
        0x93 => Decoded { instr: Instr::Sub(Reg8::A, Pat8::R(Reg8::E), false), fetch: Fetch::NoFetch, cycles: 4 },
        0x94 => Decoded { instr: Instr::Sub(Reg8::A, Pat8::R(Reg8::H), false), fetch: Fetch::NoFetch, cycles: 4 },
        0x95 => Decoded { instr: Instr::Sub(Reg8::A, Pat8::R(Reg8::L), false), fetch: Fetch::NoFetch, cycles: 4 },
        0x96 => Decoded { instr: Instr::Sub(Reg8::A, Pat8::At(Reg16::HL), false), fetch: Fetch::NoFetch, cycles: 7 },
        0x97 => Decoded { instr: Instr::Sub(Reg8::A, Pat8::R(Reg8::A), false), fetch: Fetch::NoFetch, cycles: 4 },
        0x98 => Decoded { instr: Instr::Sub(Reg8::A, Pat8::R(Reg8::B), true), fetch: Fetch::NoFetch, cycles: 4 },
        0x99 => Decoded { instr: Instr::Sub(Reg8::A, Pat8::R(Reg8::C), true), fetch: Fetch::NoFetch, cycles: 4 },
        0x9A => Decoded { instr: Instr::Sub(Reg8::A, Pat8::R(Reg8::D), true), fetch: Fetch::NoFetch, cycles: 4 },
        0x9B => Decoded { instr: Instr::Sub(Reg8::A, Pat8::R(Reg8::E), true), fetch: Fetch::NoFetch, cycles: 4 },
        0x9C => Decoded { instr: Instr::Sub(Reg8::A, Pat8::R(Reg8::H), true), fetch: Fetch::NoFetch, cycles: 4 },
        0x9D => Decoded { instr: Instr::Sub(Reg8::A, Pat8::R(Reg8::L), true), fetch: Fetch::NoFetch, cycles: 4 },
        0x9E => Decoded { instr: Instr::Sub(Reg8::A, Pat8::At(Reg16::HL), true), fetch: Fetch::NoFetch, cycles: 7 },
        0x9F => Decoded { instr: Instr::Sub(Reg8::A, Pat8::R(Reg8::A), true), fetch: Fetch::NoFetch, cycles: 4 },
        0xA0 => Decoded { instr: Instr::Logic(Logic::And, Pat8::R(Reg8::B)), fetch: Fetch::NoFetch, cycles: 4 },
        0xA1 => Decoded { instr: Instr::Logic(Logic::And, Pat8::R(Reg8::C)), fetch: Fetch::NoFetch, cycles: 4 },
        0xA2 => Decoded { instr: Instr::Logic(Logic::And, Pat8::R(Reg8::D)), fetch: Fetch::NoFetch, cycles: 4 },
        0xA3 => Decoded { instr: Instr::Logic(Logic::And, Pat8::R(Reg8::E)), fetch: Fetch::NoFetch, cycles: 4 },
        0xA4 => Decoded { instr: Instr::Logic(Logic::And, Pat8::R(Reg8::H)), fetch: Fetch::NoFetch, cycles: 4 },
        0xA5 => Decoded { instr: Instr::Logic(Logic::And, Pat8::R(Reg8::L)), fetch: Fetch::NoFetch, cycles: 4 },
        0xA6 => Decoded { instr: Instr::Logic(Logic::And, Pat8::At(Reg16::HL)), fetch: Fetch::NoFetch, cycles: 7 },
        0xA7 => Decoded { instr: Instr::Logic(Logic::And, Pat8::R(Reg8::A)), fetch: Fetch::NoFetch, cycles: 4 },
        0xA8 => Decoded { instr: Instr::Logic(Logic::Xor, Pat8::R(Reg8::B)), fetch: Fetch::NoFetch, cycles: 4 },
        0xA9 => Decoded { instr: Instr::Logic(Logic::Xor, Pat8::R(Reg8::C)), fetch: Fetch::NoFetch, cycles: 4 },
        0xAA => Decoded { instr: Instr::Logic(Logic::Xor, Pat8::R(Reg8::D)), fetch: Fetch::NoFetch, cycles: 4 },
        0xAB => Decoded { instr: Instr::Logic(Logic::Xor, Pat8::R(Reg8::E)), fetch: Fetch::NoFetch, cycles: 4 },
        0xAC => Decoded { instr: Instr::Logic(Logic::Xor, Pat8::R(Reg8::H)), fetch: Fetch::NoFetch, cycles: 4 },
        0xAD => Decoded { instr: Instr::Logic(Logic::Xor, Pat8::R(Reg8::L)), fetch: Fetch::NoFetch, cycles: 4 },
        0xAE => Decoded { instr: Instr::Logic(Logic::Xor, Pat8::At(Reg16::HL)), fetch: Fetch::NoFetch, cycles: 7 },
        0xAF => Decoded { instr: Instr::Logic(Logic::Xor, Pat8::R(Reg8::A)), fetch: Fetch::NoFetch, cycles: 4 },
        0xB0 => Decoded { instr: Instr::Logic(Logic::Or, Pat8::R(Reg8::B)), fetch: Fetch::NoFetch, cycles: 4 },
        0xB1 => Decoded { instr: Instr::Logic(Logic::Or, Pat8::R(Reg8::C)), fetch: Fetch::NoFetch, cycles: 4 },
        0xB2 => Decoded { instr: Instr::Logic(Logic::Or, Pat8::R(Reg8::D)), fetch: Fetch::NoFetch, cycles: 4 },
        0xB3 => Decoded { instr: Instr::Logic(Logic::Or, Pat8::R(Reg8::E)), fetch: Fetch::NoFetch, cycles: 4 },
        0xB4 => Decoded { instr: Instr::Logic(Logic::Or, Pat8::R(Reg8::H)), fetch: Fetch::NoFetch, cycles: 4 },
        0xB5 => Decoded { instr: Instr::Logic(Logic::Or, Pat8::R(Reg8::L)), fetch: Fetch::NoFetch, cycles: 4 },
        0xB6 => Decoded { instr: Instr::Logic(Logic::Or, Pat8::At(Reg16::HL)), fetch: Fetch::NoFetch, cycles: 7 },
        0xB7 => Decoded { instr: Instr::Logic(Logic::Or, Pat8::R(Reg8::A)), fetch: Fetch::NoFetch, cycles: 4 },
        0xB8 => Decoded { instr: Instr::Cp(Pat8::R(Reg8::B)), fetch: Fetch::NoFetch, cycles: 4 },
        0xB9 => Decoded { instr: Instr::Cp(Pat8::R(Reg8::C)), fetch: Fetch::NoFetch, cycles: 4 },
        0xBA => Decoded { instr: Instr::Cp(Pat8::R(Reg8::D)), fetch: Fetch::NoFetch, cycles: 4 },
        0xBB => Decoded { instr: Instr::Cp(Pat8::R(Reg8::E)), fetch: Fetch::NoFetch, cycles: 4 },
        0xBC => Decoded { instr: Instr::Cp(Pat8::R(Reg8::H)), fetch: Fetch::NoFetch, cycles: 4 },
        0xBD => Decoded { instr: Instr::Cp(Pat8::R(Reg8::L)), fetch: Fetch::NoFetch, cycles: 4 },
        0xBE => Decoded { instr: Instr::Cp(Pat8::At(Reg16::HL)), fetch: Fetch::NoFetch, cycles: 7 },
        0xBF => Decoded { instr: Instr::Cp(Pat8::R(Reg8::A)), fetch: Fetch::NoFetch, cycles: 4 },
        0xC0 => Decoded { instr: Instr::Retcc(ConditionCode::NZcc), fetch: Fetch::NoFetch, cycles: 0 },
        0xC1 => Decoded { instr: Instr::Pop(Reg16::BC), fetch: Fetch::NoFetch, cycles: 10 },
        0xC2 => Decoded { instr: Instr::Jpcc(ConditionCode::NZcc), fetch: Fetch::NN, cycles: 10 },
        0xC3 => Decoded { instr: Instr::Jp(Pat16::NN), fetch: Fetch::NN, cycles: 10 },
        0xC4 => Decoded { instr: Instr::Callcc(ConditionCode::NZcc), fetch: Fetch::NN, cycles: 0 },
        0xC5 => Decoded { instr: Instr::Push(Reg16::BC), fetch: Fetch::NoFetch, cycles: 11 },
        0xC6 => Decoded { instr: Instr::Add(Reg8::A, Pat8::N, false), fetch: Fetch::N, cycles: 7 },
        0xC7 => Decoded { instr: Instr::Rst(0), fetch: Fetch::NoFetch, cycles: 11 },
        0xC8 => Decoded { instr: Instr::Retcc(ConditionCode::Zcc), fetch: Fetch::NoFetch, cycles: 0 },
        0xC9 => Decoded { instr: Instr::Ret, fetch: Fetch::NoFetch, cycles: 10 },
        0xCA => Decoded { instr: Instr::Jpcc(ConditionCode::Zcc), fetch: Fetch::NN, cycles: 10 },
        0xCB => Decoded { instr: Instr::SetPrefix(Prefix::Cb), fetch: Fetch::NoFetch, cycles: 0 },
        0xCC => Decoded { instr: Instr::Callcc(ConditionCode::Zcc), fetch: Fetch::NN, cycles: 0 },
        0xCD => Decoded { instr: Instr::Call, fetch: Fetch::NN, cycles: 0 },
        0xCE => Decoded { instr: Instr::Add(Reg8::A, Pat8::N, true), fetch: Fetch::N, cycles: 7 },
        0xCF => Decoded { instr: Instr::Rst(8), fetch: Fetch::NoFetch, cycles: 11 },
        0xD0 => Decoded { instr: Instr::Retcc(ConditionCode::NCcc), fetch: Fetch::NoFetch, cycles: 0 },
        0xD1 => Decoded { instr: Instr::Pop(Reg16::DE), fetch: Fetch::NoFetch, cycles: 10 },
        0xD2 => Decoded { instr: Instr::Jpcc(ConditionCode::NCcc), fetch: Fetch::NN, cycles: 10 },
        0xD3 => Decoded { instr: Instr::OutN(Reg8::A), fetch: Fetch::N, cycles: 11 },
        0xD4 => Decoded { instr: Instr::Callcc(ConditionCode::NCcc), fetch: Fetch::NN, cycles: 0 },
        0xD5 => Decoded { instr: Instr::Push(Reg16::DE), fetch: Fetch::NoFetch, cycles: 11 },
        0xD6 => Decoded { instr: Instr::Sub(Reg8::A, Pat8::N, false), fetch: Fetch::N, cycles: 7 },
        0xD7 => Decoded { instr: Instr::Rst(16), fetch: Fetch::NoFetch, cycles: 11 },
        0xD8 => Decoded { instr: Instr::Retcc(ConditionCode::Ccc), fetch: Fetch::NoFetch, cycles: 0 },
        0xD9 => Decoded { instr: Instr::Exx, fetch: Fetch::NoFetch, cycles: 4 },
        0xDA => Decoded { instr: Instr::Jpcc(ConditionCode::Ccc), fetch: Fetch::NN, cycles: 10 },
        0xDB => Decoded { instr: Instr::InN(Reg8::A), fetch: Fetch::N, cycles: 11 },
        0xDC => Decoded { instr: Instr::Callcc(ConditionCode::Ccc), fetch: Fetch::NN, cycles: 0 },
        0xDD => Decoded { instr: Instr::SetPrefix(Prefix::Dd), fetch: Fetch::NoFetch, cycles: 4 },
        0xDE => Decoded { instr: Instr::Sub(Reg8::A, Pat8::N, true), fetch: Fetch::N, cycles: 7 },
        0xDF => Decoded { instr: Instr::Rst(24), fetch: Fetch::NoFetch, cycles: 11 },
        0xE0 => Decoded { instr: Instr::Retcc(ConditionCode::POcc), fetch: Fetch::NoFetch, cycles: 0 },
        0xE1 => Decoded { instr: Instr::Pop(Reg16::HL), fetch: Fetch::NoFetch, cycles: 10 },
        0xE2 => Decoded { instr: Instr::Jpcc(ConditionCode::POcc), fetch: Fetch::NN, cycles: 10 },
        0xE3 => Decoded { instr: Instr::Ex(Pat16::At(Reg16::SP), Reg16::HL), fetch: Fetch::NoFetch, cycles: 19 },
        0xE4 => Decoded { instr: Instr::Callcc(ConditionCode::POcc), fetch: Fetch::NN, cycles: 0 },
        0xE5 => Decoded { instr: Instr::Push(Reg16::HL), fetch: Fetch::NoFetch, cycles: 11 },
        0xE6 => Decoded { instr: Instr::Logic(Logic::And, Pat8::N), fetch: Fetch::N, cycles: 7 },
        0xE7 => Decoded { instr: Instr::Rst(32), fetch: Fetch::NoFetch, cycles: 11 },
        0xE8 => Decoded { instr: Instr::Retcc(ConditionCode::PEcc), fetch: Fetch::NoFetch, cycles: 0 },
        0xE9 => Decoded { instr: Instr::Jp(Pat16::R(Reg16::HL)), fetch: Fetch::NoFetch, cycles: 4 },
        0xEA => Decoded { instr: Instr::Jpcc(ConditionCode::PEcc), fetch: Fetch::NN, cycles: 10 },
        0xEB => Decoded { instr: Instr::Ex(Pat16::R(Reg16::DE), Reg16::HL), fetch: Fetch::NoFetch, cycles: 4 },
        0xEC => Decoded { instr: Instr::Callcc(ConditionCode::PEcc), fetch: Fetch::NN, cycles: 0 },
        0xED => Decoded { instr: Instr::SetPrefix(Prefix::Ed), fetch: Fetch::NoFetch, cycles: 0 },
        0xEE => Decoded { instr: Instr::Logic(Logic::Xor, Pat8::N), fetch: Fetch::N, cycles: 7 },
        0xEF => Decoded { instr: Instr::Rst(40), fetch: Fetch::NoFetch, cycles: 11 },
        0xF0 => Decoded { instr: Instr::Retcc(ConditionCode::Pcc), fetch: Fetch::NoFetch, cycles: 0 },
        0xF1 => Decoded { instr: Instr::Pop(Reg16::AF), fetch: Fetch::NoFetch, cycles: 10 },
        0xF2 => Decoded { instr: Instr::Jpcc(ConditionCode::Pcc), fetch: Fetch::NN, cycles: 10 },
        0xF3 => Decoded { instr: Instr::Di, fetch: Fetch::NoFetch, cycles: 4 },
        0xF4 => Decoded { instr: Instr::Callcc(ConditionCode::Pcc), fetch: Fetch::NN, cycles: 0 },
        0xF5 => Decoded { instr: Instr::Push(Reg16::AF), fetch: Fetch::NoFetch, cycles: 11 },
        0xF6 => Decoded { instr: Instr::Logic(Logic::Or, Pat8::N), fetch: Fetch::N, cycles: 7 },
        0xF7 => Decoded { instr: Instr::Rst(48), fetch: Fetch::NoFetch, cycles: 11 },
        0xF8 => Decoded { instr: Instr::Retcc(ConditionCode::Mcc), fetch: Fetch::NoFetch, cycles: 0 },
        0xF9 => Decoded { instr: Instr::Ld16(Pat16::R(Reg16::SP), Pat16::R(Reg16::HL)), fetch: Fetch::NoFetch, cycles: 6 },
        0xFA => Decoded { instr: Instr::Jpcc(ConditionCode::Mcc), fetch: Fetch::NN, cycles: 10 },
        0xFB => Decoded { instr: Instr::Ei, fetch: Fetch::NoFetch, cycles: 4 },
        0xFC => Decoded { instr: Instr::Callcc(ConditionCode::Mcc), fetch: Fetch::NN, cycles: 0 },
        0xFD => Decoded { instr: Instr::SetPrefix(Prefix::Fd), fetch: Fetch::NoFetch, cycles: 4 },
        0xFE => Decoded { instr: Instr::Cp(Pat8::N), fetch: Fetch::N, cycles: 7 },
        0xFF => Decoded { instr: Instr::Rst(56), fetch: Fetch::NoFetch, cycles: 11 },
    }
}

/// The instruction an opcode after the 0xDD prefix stands for.
pub fn decode_dd(op: u8) -> (d: Decoded)
    ensures
        d == spec_decode_main(op, Reg16::IX),
{
    reveal(spec_decode_main);
    match op {
        0x00 => Decoded { instr: Instr::Nop, fetch: Fetch::NoFetch, cycles: 4 },
        0x01 => Decoded { instr: Instr::Ld16(Pat16::R(Reg16::BC), Pat16::NN), fetch: Fetch::NN, cycles: 10 },
        0x02 => Decoded { instr: Instr::Ld(Pat8::At(Reg16::BC), Pat8::R(Reg8::A)), fetch: Fetch::NoFetch, cycles: 7 },
        0x03 => Decoded { instr: Instr::Inc16(Reg16::BC), fetch: Fetch::NoFetch, cycles: 6 },
        0x04 => Decoded { instr: Instr::IncDec(Pat8::R(Reg8::B), false), fetch: Fetch::NoFetch, cycles: 4 },
        0x05 => Decoded { instr: Instr::IncDec(Pat8::R(Reg8::B), true), fetch: Fetch::NoFetch, cycles: 4 },
        0x06 => Decoded { instr: Instr::Ld(Pat8::R(Reg8::B), Pat8::N), fetch: Fetch::N, cycles: 7 },
        0x07 => Decoded { instr: Instr::RotA(Rotation::Rlc), fetch: Fetch::NoFetch, cycles: 4 },
        0x08 => Decoded { instr: Instr::Ex(Pat16::R(Reg16::AF), Reg16::AF0), fetch: Fetch::NoFetch, cycles: 4 },
        0x09 => Decoded { instr: Instr::Add16(Reg16::IX, Reg16::BC), fetch: Fetch::NoFetch, cycles: 11 },
        0x0A => Decoded { instr: Instr::Ld(Pat8::R(Reg8::A), Pat8::At(Reg16::BC)), fetch: Fetch::NoFetch, cycles: 7 },
        0x0B => Decoded { instr: Instr::Dec16(Reg16::BC), fetch: Fetch::NoFetch, cycles: 6 },
        0x0C => Decoded { instr: Instr::IncDec(Pat8::R(Reg8::C), false), fetch: Fetch::NoFetch, cycles: 4 },
        0x0D => Decoded { instr: Instr::IncDec(Pat8::R(Reg8::C), true), fetch: Fetch::NoFetch, cycles: 4 },
        0x0E => Decoded { instr: Instr::Ld(Pat8::R(Reg8::C), Pat8::N), fetch: Fetch::N, cycles: 7 },
        0x0F => Decoded { instr: Instr::RotA(Rotation::Rrc), fetch: Fetch::NoFetch, cycles: 4 },
        0x10 => Decoded { instr: Instr::Djnz, fetch: Fetch::E, cycles: 8 },
        0x11 => Decoded { instr: Instr::Ld16(Pat16::R(Reg16::DE), Pat16::NN), fetch: Fetch::NN, cycles: 10 },
        0x12 => Decoded { instr: Instr::Ld(Pat8::At(Reg16::DE), Pat8::R(Reg8::A)), fetch: Fetch::NoFetch, cycles: 7 },
        0x13 => Decoded { instr: Instr::Inc16(Reg16::DE), fetch: Fetch::NoFetch, cycles: 6 },
        0x14 => Decoded { instr: Instr::IncDec(Pat8::R(Reg8::D), false), fetch: Fetch::NoFetch, cycles: 4 },
        0x15 => Decoded { instr: Instr::IncDec(Pat8::R(Reg8::D), true), fetch: Fetch::NoFetch, cycles: 4 },
        0x16 => Decoded { instr: Instr::Ld(Pat8::R(Reg8::D), Pat8::N), fetch: Fetch::N, cycles: 7 },
        0x17 => Decoded { instr: Instr::RotA(Rotation::Rl), fetch: Fetch::NoFetch, cycles: 4 },
        0x18 => Decoded { instr: Instr::Jr, fetch: Fetch::E, cycles: 12 },
        0x19 => Decoded { instr: Instr::Add16(Reg16::IX, Reg16::DE), fetch: Fetch::NoFetch, cycles: 11 },
        0x1A => Decoded { instr: Instr::Ld(Pat8::R(Reg8::A), Pat8::At(Reg16::DE)), fetch: Fetch::NoFetch, cycles: 7 },
        0x1B => Decoded { instr: Instr::Dec16(Reg16::DE), fetch: Fetch::NoFetch, cycles: 6 },
        0x1C => Decoded { instr: Instr::IncDec(Pat8::R(Reg8::E), false), fetch: Fetch::NoFetch, cycles: 4 },
        0x1D => Decoded { instr: Instr::IncDec(Pat8::R(Reg8::E), true), fetch: Fetch::NoFetch, cycles: 4 },
        0x1E => Decoded { instr: Instr::Ld(Pat8::R(Reg8::E), Pat8::N), fetch: Fetch::N, cycles: 7 },
        0x1F => Decoded { instr: Instr::RotA(Rotation::Rr), fetch: Fetch::NoFetch, cycles: 4 },
        0x20 => Decoded { instr: Instr::Jrcc(ConditionCode::NZcc), fetch: Fetch::E, cycles: 0 },
        0x21 => Decoded { instr: Instr::Ld16(Pat16::R(Reg16::IX), Pat16::NN), fetch: Fetch::NN, cycles: 10 },
        0x22 => Decoded { instr: Instr::Ld16(Pat16::AtNN, Pat16::R(Reg16::IX)), fetch: Fetch::NN, cycles: 16 },
        0x23 => Decoded { instr: Instr::Inc16(Reg16::IX), fetch: Fetch::NoFetch, cycles: 6 },
        0x24 => Decoded { instr: Instr::IncDec(Pat8::R(Reg8::IXH), false), fetch: Fetch::NoFetch, cycles: 4 },
        0x25 => Decoded { instr: Instr::IncDec(Pat8::R(Reg8::IXH), true), fetch: Fetch::NoFetch, cycles: 4 },
        0x26 => Decoded { instr: Instr::Ld(Pat8::R(Reg8::IXH), Pat8::N), fetch: Fetch::N, cycles: 7 },
        0x27 => Decoded { instr: Instr::Daa, fetch: Fetch::NoFetch, cycles: 4 },
        0x28 => Decoded { instr: Instr::Jrcc(ConditionCode::Zcc), fetch: Fetch::E, cycles: 0 },
        0x29 => Decoded { instr: Instr::Add16(Reg16::IX, Reg16::IX), fetch: Fetch::NoFetch, cycles: 11 },
        0x2A => Decoded { instr: Instr::Ld16(Pat16::R(Reg16::IX), Pat16::AtNN), fetch: Fetch::NN, cycles: 16 },
        0x2B => Decoded { instr: Instr::Dec16(Reg16::IX), fetch: Fetch::NoFetch, cycles: 6 },
        0x2C => Decoded { instr: Instr::IncDec(Pat8::R(Reg8::IXL), false), fetch: Fetch::NoFetch, cycles: 4 },
        0x2D => Decoded { instr: Instr::IncDec(Pat8::R(Reg8::IXL), true), fetch: Fetch::NoFetch, cycles: 4 },
        0x2E => Decoded { instr: Instr::Ld(Pat8::R(Reg8::IXL), Pat8::N), fetch: Fetch::N, cycles: 7 },
        0x2F => Decoded { instr: Instr::Cpl, fetch: Fetch::NoFetch, cycles: 4 },
        0x30 => Decoded { instr: Instr::Jrcc(ConditionCode::NCcc), fetch: Fetch::E, cycles: 0 },
        0x31 => Decoded { instr: Instr::Ld16(Pat16::R(Reg16::SP), Pat16::NN), fetch: Fetch::NN, cycles: 10 },
        0x32 => Decoded { instr: Instr::Ld(Pat8::AtNN, Pat8::R(Reg8::A)), fetch: Fetch::NN, cycles: 13 },
        0x33 => Decoded { instr: Instr::Inc16(Reg16::SP), fetch: Fetch::NoFetch, cycles: 6 },
        0x34 => Decoded { instr: Instr::IncDec(Pat8::Idx(Reg16::IX), false), fetch: Fetch::E, cycles: 19 },
        0x35 => Decoded { instr: Instr::IncDec(Pat8::Idx(Reg16::IX), true), fetch: Fetch::E, cycles: 19 },
        0x36 => Decoded { instr: Instr::Ld(Pat8::Idx(Reg16::IX), Pat8::N), fetch: Fetch::DN, cycles: 15 },
        0x37 => Decoded { instr: Instr::Scf, fetch: Fetch::NoFetch, cycles: 4 },
        0x38 => Decoded { instr: Instr::Jrcc(ConditionCode::Ccc), fetch: Fetch::E, cycles: 0 },
        0x39 => Decoded { instr: Instr::Add16(Reg16::IX, Reg16::SP), fetch: Fetch::NoFetch, cycles: 11 },
        0x3A => Decoded { instr: Instr::Ld(Pat8::R(Reg8::A), Pat8::AtNN), fetch: Fetch::NN, cycles: 13 },
        0x3B => Decoded { instr: Instr::Dec16(Reg16::SP), fetch: Fetch::NoFetch, cycles: 6 },
        0x3C => Decoded { instr: Instr::IncDec(Pat8::R(Reg8::A), false), fetch: Fetch::NoFetch, cycles: 4 },
        0x3D => Decoded { instr: Instr::IncDec(Pat8::R(Reg8::A), true), fetch: Fetch::NoFetch, cycles: 4 },
        0x3E => Decoded { instr: Instr::Ld(Pat8::R(Reg8::A), Pat8::N), fetch: Fetch::N, cycles: 7 },
        0x3F => Decoded { instr: Instr::Ccf, fetch: Fetch::NoFetch, cycles: 4 },
        0x40 => Decoded { instr: Instr::Ld(Pat8::R(Reg8::B), Pat8::R(Reg8::B)), fetch: Fetch::NoFetch, cycles: 4 },
        0x41 => Decoded { instr: Instr::Ld(Pat8::R(Reg8::B), Pat8::R(Reg8::C)), fetch: Fetch::NoFetch, cycles: 4 },
        0x42 => Decoded { instr: Instr::Ld(Pat8::R(Reg8::B), Pat8::R(Reg8::D)), fetch: Fetch::NoFetch, cycles: 4 },
        0x43 => Decoded { instr: Instr::Ld(Pat8::R(Reg8::B), Pat8::R(Reg8::E)), fetch: Fetch::NoFetch, cycles: 4 },
        0x44 => Decoded { instr: Instr::Ld(Pat8::R(Reg8::B), Pat8::R(Reg8::IXH)), fetch: Fetch::NoFetch, cycles: 4 },
        0x45 => Decoded { instr: Instr::Ld(Pat8::R(Reg8::B), Pat8::R(Reg8::IXL)), fetch: Fetch::NoFetch, cycles: 4 },
        0x46 => Decoded { instr: Instr::Ld(Pat8::R(Reg8::B), Pat8::Idx(Reg16::IX)), fetch: Fetch::E, cycles: 15 },
        0x47 => Decoded { instr: Instr::Ld(Pat8::R(Reg8::B), Pat8::R(Reg8::A)), fetch: Fetch::NoFetch, cycles: 4 },
        0x48 => Decoded { instr: Instr::Ld(Pat8::R(Reg8::C), Pat8::R(Reg8::B)), fetch: Fetch::NoFetch, cycles: 4 },
        0x49 => Decoded { instr: Instr::Ld(Pat8::R(Reg8::C), Pat8::R(Reg8::C)), fetch: Fetch::NoFetch, cycles: 4 },
        0x4A => Decoded { instr: Instr::Ld(Pat8::R(Reg8::C), Pat8::R(Reg8::D)), fetch: Fetch::NoFetch, cycles: 4 },
        0x4B => Decoded { instr: Instr::Ld(Pat8::R(Reg8::C), Pat8::R(Reg8::E)), fetch: Fetch::NoFetch, cycles: 4 },
        0x4C => Decoded { instr: Instr::Ld(Pat8::R(Reg8::C), Pat8::R(Reg8::IXH)), fetch: Fetch::NoFetch, cycles: 4 },
        0x4D => Decoded { instr: Instr::Ld(Pat8::R(Reg8::C), Pat8::R(Reg8::IXL)), fetch: Fetch::NoFetch, cycles: 4 },
        0x4E => Decoded { instr: Instr::Ld(Pat8::R(Reg8::C), Pat8::Idx(Reg16::IX)), fetch: Fetch::E, cycles: 15 },
        0x4F => Decoded { instr: Instr::Ld(Pat8::R(Reg8::C), Pat8::R(Reg8::A)), fetch: Fetch::NoFetch, cycles: 4 },
        0x50 => Decoded { instr: Instr::Ld(Pat8::R(Reg8::D), Pat8::R(Reg8::B)), fetch: Fetch::NoFetch, cycles: 4 },
        0x51 => Decoded { instr: Instr::Ld(Pat8::R(Reg8::D), Pat8::R(Reg8::C)), fetch: Fetch::NoFetch, cycles: 4 },
        0x52 => Decoded { instr: Instr::Ld(Pat8::R(Reg8::D), Pat8::R(Reg8::D)), fetch: Fetch::NoFetch, cycles: 4 },
        0x53 => Decoded { instr: Instr::Ld(Pat8::R(Reg8::D), Pat8::R(Reg8::E)), fetch: Fetch::NoFetch, cycles: 4 },
        0x54 => Decoded { instr: Instr::Ld(Pat8::R(Reg8::D), Pat8::R(Reg8::IXH)), fetch: Fetch::NoFetch, cycles: 4 },
        0x55 => Decoded { instr: Instr::Ld(Pat8::R(Reg8::D), Pat8::R(Reg8::IXL)), fetch: Fetch::NoFetch, cycles: 4 },
        0x56 => Decoded { instr: Instr::Ld(Pat8::R(Reg8::D), Pat8::Idx(Reg16::IX)), fetch: Fetch::E, cycles: 15 },
        0x57 => Decoded { instr: Instr::Ld(Pat8::R(Reg8::D), Pat8::R(Reg8::A)), fetch: Fetch::NoFetch, cycles: 4 },
        0x58 => Decoded { instr: Instr::Ld(Pat8::R(Reg8::E), Pat8::R(Reg8::B)), fetch: Fetch::NoFetch, cycles: 4 },
        0x59 => Decoded { instr: Instr::Ld(Pat8::R(Reg8::E), Pat8::R(Reg8::C)), fetch: Fetch::NoFetch, cycles: 4 },
        0x5A => Decoded { instr: Instr::Ld(Pat8::R(Reg8::E), Pat8::R(Reg8::D)), fetch: Fetch::NoFetch, cycles: 4 },
        0x5B => Decoded { instr: Instr::Ld(Pat8::R(Reg8::E), Pat8::R(Reg8::E)), fetch: Fetch::NoFetch, cycles: 4 },
        0x5C => Decoded { instr: Instr::Ld(Pat8::R(Reg8::E), Pat8::R(Reg8::IXH)), fetch: Fetch::NoFetch, cycles: 4 },
        0x5D => Decoded { instr: Instr::Ld(Pat8::R(Reg8::E), Pat8::R(Reg8::IXL)), fetch: Fetch::NoFetch, cycles: 4 },
        0x5E => Decoded { instr: Instr::Ld(Pat8::R(Reg8::E), Pat8::Idx(Reg16::IX)), fetch: Fetch::E, cycles: 15 },
        0x5F => Decoded { instr: Instr::Ld(Pat8::R(Reg8::E), Pat8::R(Reg8::A)), fetch: Fetch::NoFetch, cycles: 4 },
        0x60 => Decoded { instr: Instr::Ld(Pat8::R(Reg8::IXH), Pat8::R(Reg8::B)), fetch: Fetch::NoFetch, cycles: 4 },
        0x61 => Decoded { instr: Instr::Ld(Pat8::R(Reg8::IXH), Pat8::R(Reg8::C)), fetch: Fetch::NoFetch, cycles: 4 },
        0x62 => Decoded { instr: Instr::Ld(Pat8::R(Reg8::IXH), Pat8::R(Reg8::D)), fetch: Fetch::NoFetch, cycles: 4 },
        0x63 => Decoded { instr: Instr::Ld(Pat8::R(Reg8::IXH), Pat8::R(Reg8::E)), fetch: Fetch::NoFetch, cycles: 4 },
        0x64 => Decoded { instr: Instr::Ld(Pat8::R(Reg8::IXH), Pat8::R(Reg8::IXH)), fetch: Fetch::NoFetch, cycles: 4 },
        0x65 => Decoded { instr: Instr::Ld(Pat8::R(Reg8::IXH), Pat8::R(Reg8::IXL)), fetch: Fetch::NoFetch, cycles: 4 },
        0x66 => Decoded { instr: Instr::Ld(Pat8::R(Reg8::H), Pat8::Idx(Reg16::IX)), fetch: Fetch::E, cycles: 15 },
        0x67 => Decoded { instr: Instr::Ld(Pat8::R(Reg8::IXH), Pat8::R(Reg8::A)), fetch: Fetch::NoFetch, cycles: 4 },
        0x68 => Decoded { instr: Instr::Ld(Pat8::R(Reg8::IXL), Pat8::R(Reg8::B)), fetch: Fetch::NoFetch, cycles: 4 },
        0x69 => Decoded { instr: Instr::Ld(Pat8::R(Reg8::IXL), Pat8::R(Reg8::C)), fetch: Fetch::NoFetch, cycles: 4 },
        0x6A => Decoded { instr: Instr::Ld(Pat8::R(Reg8::IXL), Pat8::R(Reg8::D)), fetch: Fetch::NoFetch, cycles: 4 },
        0x6B => Decoded { instr: Instr::Ld(Pat8::R(Reg8::IXL), Pat8::R(Reg8::E)), fetch: Fetch::NoFetch, cycles: 4 },
        0x6C => Decoded { instr: Instr::Ld(Pat8::R(Reg8::IXL), Pat8::R(Reg8::IXH)), fetch: Fetch::NoFetch, cycles: 4 },
        0x6D => Decoded { instr: Instr::Ld(Pat8::R(Reg8::IXL), Pat8::R(Reg8::IXL)), fetch: Fetch::NoFetch, cycles: 4 },
        0x6E => Decoded { instr: Instr::Ld(Pat8::R(Reg8::L), Pat8::Idx(Reg16::IX)), fetch: Fetch::E, cycles: 15 },
        0x6F => Decoded { instr: Instr::Ld(Pat8::R(Reg8::IXL), Pat8::R(Reg8::A)), fetch: Fetch::NoFetch, cycles: 4 },
        0x70 => Decoded { instr: Instr::Ld(Pat8::Idx(Reg16::IX), Pat8::R(Reg8::B)), fetch: Fetch::E, cycles: 15 },
        0x71 => Decoded { instr: Instr::Ld(Pat8::Idx(Reg16::IX), Pat8::R(Reg8::C)), fetch: Fetch::E, cycles: 15 },
        0x72 => Decoded { instr: Instr::Ld(Pat8::Idx(Reg16::IX), Pat8::R(Reg8::D)), fetch: Fetch::E, cycles: 15 },
        0x73 => Decoded { instr: Instr::Ld(Pat8::Idx(Reg16::IX), Pat8::R(Reg8::E)), fetch: Fetch::E, cycles: 15 },
        0x74 => Decoded { instr: Instr::Ld(Pat8::Idx(Reg16::IX), Pat8::R(Reg8::H)), fetch: Fetch::E, cycles: 15 },
        0x75 => Decoded { instr: Instr::Ld(Pat8::Idx(Reg16::IX), Pat8::R(Reg8::L)), fetch: Fetch::E, cycles: 15 },
        0x76 => Decoded { instr: Instr::Halt, fetch: Fetch::NoFetch, cycles: 4 },
        0x77 => Decoded { instr: Instr::Ld(Pat8::Idx(Reg16::IX), Pat8::R(Reg8::A)), fetch: Fetch::E, cycles: 15 },
        0x78 => Decoded { instr: Instr::Ld(Pat8::R(Reg8::A), Pat8::R(Reg8::B)), fetch: Fetch::NoFetch, cycles: 4 },
        0x79 => Decoded { instr: Instr::Ld(Pat8::R(Reg8::A), Pat8::R(Reg8::C)), fetch: Fetch::NoFetch, cycles: 4 },
        0x7A => Decoded { instr: Instr::Ld(Pat8::R(Reg8::A), Pat8::R(Reg8::D)), fetch: Fetch::NoFetch, cycles: 4 },
        0x7B => Decoded { instr: Instr::Ld(Pat8::R(Reg8::A), Pat8::R(Reg8::E)), fetch: Fetch::NoFetch, cycles: 4 },
        0x7C => Decoded { instr: Instr::Ld(Pat8::R(Reg8::A), Pat8::R(Reg8::IXH)), fetch: Fetch::NoFetch, cycles: 4 },
        0x7D => Decoded { instr: Instr::Ld(Pat8::R(Reg8::A), Pat8::R(Reg8::IXL)), fetch: Fetch::NoFetch, cycles: 4 },
        0x7E => Decoded { instr: Instr::Ld(Pat8::R(Reg8::A), Pat8::Idx(Reg16::IX)), fetch: Fetch::E, cycles: 15 },
        0x7F => Decoded { instr: Instr::Ld(Pat8::R(Reg8::A), Pat8::R(Reg8::A)), fetch: Fetch::NoFetch, cycles: 4 },
        0x80 => Decoded { instr: Instr::Add(Reg8::A, Pat8::R(Reg8::B), false), fetch: Fetch::NoFetch, cycles: 4 },
        0x81 => Decoded { instr: Instr::Add(Reg8::A, Pat8::R(Reg8::C), false), fetch: Fetch::NoFetch, cycles: 4 },
        0x82 => Decoded { instr: Instr::Add(Reg8::A, Pat8::R(Reg8::D), false), fetch: Fetch::NoFetch, cycles: 4 },
        0x83 => Decoded { instr: Instr::Add(Reg8::A, Pat8::R(Reg8::E), false), fetch: Fetch::NoFetch, cycles: 4 },
        0x84 => Decoded { instr: Instr::Add(Reg8::A, Pat8::R(Reg8::IXH), false), fetch: Fetch::NoFetch, cycles: 4 },
        0x85 => Decoded { instr: Instr::Add(Reg8::A, Pat8::R(Reg8::IXL), false), fetch: Fetch::NoFetch, cycles: 4 },
        0x86 => Decoded { instr: Instr::Add(Reg8::A, Pat8::Idx(Reg16::IX), false), fetch: Fetch::E, cycles: 15 },
        0x87 => Decoded { instr: Instr::Add(Reg8::A, Pat8::R(Reg8::A), false), fetch: Fetch::NoFetch, cycles: 4 },
        0x88 => Decoded { instr: Instr::Add(Reg8::A, Pat8::R(Reg8::B), true), fetch: Fetch::NoFetch, cycles: 4 },
        0x89 => Decoded { instr: Instr::Add(Reg8::A, Pat8::R(Reg8::C), true), fetch: Fetch::NoFetch, cycles: 4 },
        0x8A => Decoded { instr: Instr::Add(Reg8::A, Pat8::R(Reg8::D), true), fetch: Fetch::NoFetch, cycles: 4 },
        0x8B => Decoded { instr: Instr::Add(Reg8::A, Pat8::R(Reg8::E), true), fetch: Fetch::NoFetch, cycles: 4 },
        0x8C => Decoded { instr: Instr::Add(Reg8::A, Pat8::R(Reg8::IXH), true), fetch: Fetch::NoFetch, cycles: 4 },
        0x8D => Decoded { instr: Instr::Add(Reg8::A, Pat8::R(Reg8::IXL), true), fetch: Fetch::NoFetch, cycles: 4 },
        0x8E => Decoded { instr: Instr::Add(Reg8::A, Pat8::Idx(Reg16::IX), true), fetch: Fetch::E, cycles: 15 },
        0x8F => Decoded { instr: Instr::Add(Reg8::A, Pat8::R(Reg8::A), true), fetch: Fetch::NoFetch, cycles: 4 },
        0x90 => Decoded { instr: Instr::Sub(Reg8::A, Pat8::R(Reg8::B), false), fetch: Fetch::NoFetch, cycles: 4 },
        0x91 => Decoded { instr: Instr::Sub(Reg8::A, Pat8::R(Reg8::C), false), fetch: Fetch::NoFetch, cycles: 4 },
        0x92 => Decoded { instr: Instr::Sub(Reg8::A, Pat8::R(Reg8::D), false), fetch: Fetch::NoFetch, cycles: 4 },
        0x93 => Decoded { instr: Instr::Sub(Reg8::A, Pat8::R(Reg8::E), false), fetch: Fetch::NoFetch, cycles: 4 },
        0x94 => Decoded { instr: Instr::Sub(Reg8::A, Pat8::R(Reg8::IXH), false), fetch: Fetch::NoFetch, cycles: 4 },
        0x95 => Decoded { instr: Instr::Sub(Reg8::A, Pat8::R(Reg8::IXL), false), fetch: Fetch::NoFetch, cycles: 4 },
        0x96 => Decoded { instr: Instr::Sub(Reg8::A, Pat8::Idx(Reg16::IX), false), fetch: Fetch::E, cycles: 15 },
        0x97 => Decoded { instr: Instr::Sub(Reg8::A, Pat8::R(Reg8::A), false), fetch: Fetch::NoFetch, cycles: 4 },
        0x98 => Decoded { instr: Instr::Sub(Reg8::A, Pat8::R(Reg8::B), true), fetch: Fetch::NoFetch, cycles: 4 },
        0x99 => Decoded { instr: Instr::Sub(Reg8::A, Pat8::R(Reg8::C), true), fetch: Fetch::NoFetch, cycles: 4 },
        0x9A => Decoded { instr: Instr::Sub(Reg8::A, Pat8::R(Reg8::D), true), fetch: Fetch::NoFetch, cycles: 4 },
        0x9B => Decoded { instr: Instr::Sub(Reg8::A, Pat8::R(Reg8::E), true), fetch: Fetch::NoFetch, cycles: 4 },
        0x9C => Decoded { instr: Instr::Sub(Reg8::A, Pat8::R(Reg8::IXH), true), fetch: Fetch::NoFetch, cycles: 4 },
        0x9D => Decoded { instr: Instr::Sub(Reg8::A, Pat8::R(Reg8::IXL), true), fetch: Fetch::NoFetch, cycles: 4 },
        0x9E => Decoded { instr: Instr::Sub(Reg8::A, Pat8::Idx(Reg16::IX), true), fetch: Fetch::E, cycles: 15 },
        0x9F => Decoded { instr: Instr::Sub(Reg8::A, Pat8::R(Reg8::A), true), fetch: Fetch::NoFetch, cycles: 4 },
        0xA0 => Decoded { instr: Instr::Logic(Logic::And, Pat8::R(Reg8::B)), fetch: Fetch::NoFetch, cycles: 4 },
        0xA1 => Decoded { instr: Instr::Logic(Logic::And, Pat8::R(Reg8::C)), fetch: Fetch::NoFetch, cycles: 4 },
        0xA2 => Decoded { instr: Instr::Logic(Logic::And, Pat8::R(Reg8::D)), fetch: Fetch::NoFetch, cycles: 4 },
        0xA3 => Decoded { instr: Instr::Logic(Logic::And, Pat8::R(Reg8::E)), fetch: Fetch::NoFetch, cycles: 4 },
        0xA4 => Decoded { instr: Instr::Logic(Logic::And, Pat8::R(Reg8::IXH)), fetch: Fetch::NoFetch, cycles: 4 },
        0xA5 => Decoded { instr: Instr::Logic(Logic::And, Pat8::R(Reg8::IXL)), fetch: Fetch::NoFetch, cycles: 4 },
        0xA6 => Decoded { instr: Instr::Logic(Logic::And, Pat8::Idx(Reg16::IX)), fetch: Fetch::E, cycles: 15 },
        0xA7 => Decoded { instr: Instr::Logic(Logic::And, Pat8::R(Reg8::A)), fetch: Fetch::NoFetch, cycles: 4 },
        0xA8 => Decoded { instr: Instr::Logic(Logic::Xor, Pat8::R(Reg8::B)), fetch: Fetch::NoFetch, cycles: 4 },
        0xA9 => Decoded { instr: Instr::Logic(Logic::Xor, Pat8::R(Reg8::C)), fetch: Fetch::NoFetch, cycles: 4 },
        0xAA => Decoded { instr: Instr::Logic(Logic::Xor, Pat8::R(Reg8::D)), fetch: Fetch::NoFetch, cycles: 4 },
        0xAB => Decoded { instr: Instr::Logic(Logic::Xor, Pat8::R(Reg8::E)), fetch: Fetch::NoFetch, cycles: 4 },
        0xAC => Decoded { instr: Instr::Logic(Logic::Xor, Pat8::R(Reg8::IXH)), fetch: Fetch::NoFetch, cycles: 4 },
        0xAD => Decoded { instr: Instr::Logic(Logic::Xor, Pat8::R(Reg8::IXL)), fetch: Fetch::NoFetch, cycles: 4 },
        0xAE => Decoded { instr: Instr::Logic(Logic::Xor, Pat8::Idx(Reg16::IX)), fetch: Fetch::E, cycles: 15 },
        0xAF => Decoded { instr: Instr::Logic(Logic::Xor, Pat8::R(Reg8::A)), fetch: Fetch::NoFetch, cycles: 4 },
        0xB0 => Decoded { instr: Instr::Logic(Logic::Or, Pat8::R(Reg8::B)), fetch: Fetch::NoFetch, cycles: 4 },
        0xB1 => Decoded { instr: Instr::Logic(Logic::Or, Pat8::R(Reg8::C)), fetch: Fetch::NoFetch, cycles: 4 },
        0xB2 => Decoded { instr: Instr::Logic(Logic::Or, Pat8::R(Reg8::D)), fetch: Fetch::NoFetch, cycles: 4 },
        0xB3 => Decoded { instr: Instr::Logic(Logic::Or, Pat8::R(Reg8::E)), fetch: Fetch::NoFetch, cycles: 4 },
        0xB4 => Decoded { instr: Instr::Logic(Logic::Or, Pat8::R(Reg8::IXH)), fetch: Fetch::NoFetch, cycles: 4 },
        0xB5 => Decoded { instr: Instr::Logic(Logic::Or, Pat8::R(Reg8::IXL)), fetch: Fetch::NoFetch, cycles: 4 },
        0xB6 => Decoded { instr: Instr::Logic(Logic::Or, Pat8::Idx(Reg16::IX)), fetch: Fetch::E, cycles: 15 },
        0xB7 => Decoded { instr: Instr::Logic(Logic::Or, Pat8::R(Reg8::A)), fetch: Fetch::NoFetch, cycles: 4 },
        0xB8 => Decoded { instr: Instr::Cp(Pat8::R(Reg8::B)), fetch: Fetch::NoFetch, cycles: 4 },
        0xB9 => Decoded { instr: Instr::Cp(Pat8::R(Reg8::C)), fetch: Fetch::NoFetch, cycles: 4 },
        0xBA => Decoded { instr: Instr::Cp(Pat8::R(Reg8::D)), fetch: Fetch::NoFetch, cycles: 4 },
        0xBB => Decoded { instr: Instr::Cp(Pat8::R(Reg8::E)), fetch: Fetch::NoFetch, cycles: 4 },
        0xBC => Decoded { instr: Instr::Cp(Pat8::R(Reg8::IXH)), fetch: Fetch::NoFetch, cycles: 4 },
        0xBD => Decoded { instr: Instr::Cp(Pat8::R(Reg8::IXL)), fetch: Fetch::NoFetch, cycles: 4 },
        0xBE => Decoded { instr: Instr::Cp(Pat8::Idx(Reg16::IX)), fetch: Fetch::E, cycles: 15 },
        0xBF => Decoded { instr: Instr::Cp(Pat8::R(Reg8::A)), fetch: Fetch::NoFetch, cycles: 4 },
        0xC0 => Decoded { instr: Instr::Retcc(ConditionCode::NZcc), fetch: Fetch::NoFetch, cycles: 5 },
        0xC1 => Decoded { instr: Instr::Pop(Reg16::BC), fetch: Fetch::NoFetch, cycles: 10 },
        0xC2 => Decoded { instr: Instr::Jpcc(ConditionCode::NZcc), fetch: Fetch::NN, cycles: 10 },
        0xC3 => Decoded { instr: Instr::Jp(Pat16::NN), fetch: Fetch::NN, cycles: 10 },
        0xC4 => Decoded { instr: Instr::Callcc(ConditionCode::NZcc), fetch: Fetch::NN, cycles: 0 },
        0xC5 => Decoded { instr: Instr::Push(Reg16::BC), fetch: Fetch::NoFetch, cycles: 11 },
        0xC6 => Decoded { instr: Instr::Add(Reg8::A, Pat8::N, false), fetch: Fetch::N, cycles: 7 },
        0xC7 => Decoded { instr: Instr::Rst(0), fetch: Fetch::NoFetch, cycles: 11 },
        0xC8 => Decoded { instr: Instr::Retcc(ConditionCode::Zcc), fetch: Fetch::NoFetch, cycles: 5 },
        0xC9 => Decoded { instr: Instr::Ret, fetch: Fetch::NoFetch, cycles: 10 },
        0xCA => Decoded { instr: Instr::Jpcc(ConditionCode::Zcc), fetch: Fetch::NN, cycles: 10 },
        0xCB => Decoded { instr: Instr::SetPrefix(Prefix::DdCb), fetch: Fetch::NoFetch, cycles: 0 },
        0xCC => Decoded { instr: Instr::Callcc(ConditionCode::Zcc), fetch: Fetch::NN, cycles: 0 },
        0xCD => Decoded { instr: Instr::Call, fetch: Fetch::NN, cycles: 17 },
        0xCE => Decoded { instr: Instr::Add(Reg8::A, Pat8::N, true), fetch: Fetch::N, cycles: 7 },
        0xCF => Decoded { instr: Instr::Rst(8), fetch: Fetch::NoFetch, cycles: 11 },
        0xD0 => Decoded { instr: Instr::Retcc(ConditionCode::NCcc), fetch: Fetch::NoFetch, cycles: 5 },
        0xD1 => Decoded { instr: Instr::Pop(Reg16::DE), fetch: Fetch::NoFetch, cycles: 10 },
        0xD2 => Decoded { instr: Instr::Jpcc(ConditionCode::NCcc), fetch: Fetch::NN, cycles: 10 },
        0xD3 => Decoded { instr: Instr::OutN(Reg8::A), fetch: Fetch::N, cycles: 11 },
        0xD4 => Decoded { instr: Instr::Callcc(ConditionCode::NCcc), fetch: Fetch::NN, cycles: 0 },
        0xD5 => Decoded { instr: Instr::Push(Reg16::DE), fetch: Fetch::NoFetch, cycles: 11 },
        0xD6 => Decoded { instr: Instr::Sub(Reg8::A, Pat8::N, false), fetch: Fetch::N, cycles: 7 },
        0xD7 => Decoded { instr: Instr::Rst(16), fetch: Fetch::NoFetch, cycles: 11 },
        0xD8 => Decoded { instr: Instr::Retcc(ConditionCode::Ccc), fetch: Fetch::NoFetch, cycles: 5 },
        0xD9 => Decoded { instr: Instr::Exx, fetch: Fetch::NoFetch, cycles: 4 },
        0xDA => Decoded { instr: Instr::Jpcc(ConditionCode::Ccc), fetch: Fetch::NN, cycles: 10 },
        0xDB => Decoded { instr: Instr::InN(Reg8::A), fetch: Fetch::N, cycles: 11 },
        0xDC => Decoded { instr: Instr::Callcc(ConditionCode::Ccc), fetch: Fetch::NN, cycles: 0 },
        0xDD => Decoded { instr: Instr::SetPrefix(Prefix::Dd), fetch: Fetch::NoFetch, cycles: 4 },
        0xDE => Decoded { instr: Instr::Sub(Reg8::A, Pat8::N, true), fetch: Fetch::N, cycles: 7 },
        0xDF => Decoded { instr: Instr::Rst(24), fetch: Fetch::NoFetch, cycles: 11 },
        0xE0 => Decoded { instr: Instr::Retcc(ConditionCode::POcc), fetch: Fetch::NoFetch, cycles: 5 },
        0xE1 => Decoded { instr: Instr::Pop(Reg16::IX), fetch: Fetch::NoFetch, cycles: 10 },
        0xE2 => Decoded { instr: Instr::Jpcc(ConditionCode::POcc), fetch: Fetch::NN, cycles: 10 },
        0xE3 => Decoded { instr: Instr::Ex(Pat16::At(Reg16::SP), Reg16::IX), fetch: Fetch::NoFetch, cycles: 19 },
        0xE4 => Decoded { instr: Instr::Callcc(ConditionCode::POcc), fetch: Fetch::NN, cycles: 0 },
        0xE5 => Decoded { instr: Instr::Push(Reg16::IX), fetch: Fetch::NoFetch, cycles: 11 },
        0xE6 => Decoded { instr: Instr::Logic(Logic::And, Pat8::N), fetch: Fetch::N, cycles: 7 },
        0xE7 => Decoded { instr: Instr::Rst(32), fetch: Fetch::NoFetch, cycles: 11 },
        0xE8 => Decoded { instr: Instr::Retcc(ConditionCode::PEcc), fetch: Fetch::NoFetch, cycles: 5 },
        0xE9 => Decoded { instr: Instr::Jp(Pat16::R(Reg16::IX)), fetch: Fetch::NoFetch, cycles: 4 },
        0xEA => Decoded { instr: Instr::Jpcc(ConditionCode::PEcc), fetch: Fetch::NN, cycles: 10 },
        0xEB => Decoded { instr: Instr::Ex(Pat16::R(Reg16::DE), Reg16::HL), fetch: Fetch::NoFetch, cycles: 4 },
        0xEC => Decoded { instr: Instr::Callcc(ConditionCode::PEcc), fetch: Fetch::NN, cycles: 0 },
        0xED => Decoded { instr: Instr::SetPrefix(Prefix::Ed), fetch: Fetch::NoFetch, cycles: 4 },
        0xEE => Decoded { instr: Instr::Logic(Logic::Xor, Pat8::N), fetch: Fetch::N, cycles: 7 },
        0xEF => Decoded { instr: Instr::Rst(40), fetch: Fetch::NoFetch, cycles: 11 },
        0xF0 => Decoded { instr: Instr::Retcc(ConditionCode::Pcc), fetch: Fetch::NoFetch, cycles: 5 },
        0xF1 => Decoded { instr: Instr::Pop(Reg16::AF), fetch: Fetch::NoFetch, cycles: 10 },
        0xF2 => Decoded { instr: Instr::Jpcc(ConditionCode::Pcc), fetch: Fetch::NN, cycles: 10 },
        0xF3 => Decoded { instr: Instr::Di, fetch: Fetch::NoFetch, cycles: 4 },
        0xF4 => Decoded { instr: Instr::Callcc(ConditionCode::Pcc), fetch: Fetch::NN, cycles: 0 },
        0xF5 => Decoded { instr: Instr::Push(Reg16::AF), fetch: Fetch::NoFetch, cycles: 11 },
        0xF6 => Decoded { instr: Instr::Logic(Logic::Or, Pat8::N), fetch: Fetch::N, cycles: 7 },
        0xF7 => Decoded { instr: Instr::Rst(48), fetch: Fetch::NoFetch, cycles: 11 },
        0xF8 => Decoded { instr: Instr::Retcc(ConditionCode::Mcc), fetch: Fetch::NoFetch, cycles: 5 },
        0xF9 => Decoded { instr: Instr::Ld16(Pat16::R(Reg16::SP), Pat16::R(Reg16::IX)), fetch: Fetch::NoFetch, cycles: 6 },
        0xFA => Decoded { instr: Instr::Jpcc(ConditionCode::Mcc), fetch: Fetch::NN, cycles: 10 },
        0xFB => Decoded { instr: Instr::Ei, fetch: Fetch::NoFetch, cycles: 4 },
        0xFC => Decoded { instr: Instr::Callcc(ConditionCode::Mcc), fetch: Fetch::NN, cycles: 0 },
        0xFD => Decoded { instr: Instr::SetPrefix(Prefix::Fd), fetch: Fetch::NoFetch, cycles: 4 },
        0xFE => Decoded { instr: Instr::Cp(Pat8::N), fetch: Fetch::N, cycles: 7 },
        0xFF => Decoded { instr: Instr::Rst(56), fetch: Fetch::NoFetch, cycles: 11 },
    }
}

/// The instruction an opcode after the 0xFD prefix stands for.
pub fn decode_fd(op: u8) -> (d: Decoded)
    ensures
        d == spec_decode_main(op, Reg16::IY),
{
    reveal(spec_decode_main);
    match op {
        0x00 => Decoded { instr: Instr::Nop, fetch: Fetch::NoFetch, cycles: 4 },
        0x01 => Decoded { instr: Instr::Ld16(Pat16::R(Reg16::BC), Pat16::NN), fetch: Fetch::NN, cycles: 10 },
        0x02 => Decoded { instr: Instr::Ld(Pat8::At(Reg16::BC), Pat8::R(Reg8::A)), fetch: Fetch::NoFetch, cycles: 7 },
        0x03 => Decoded { instr: Instr::Inc16(Reg16::BC), fetch: Fetch::NoFetch, cycles: 6 },
        0x04 => Decoded { instr: Instr::IncDec(Pat8::R(Reg8::B), false), fetch: Fetch::NoFetch, cycles: 4 },
        0x05 => Decoded { instr: Instr::IncDec(Pat8::R(Reg8::B), true), fetch: Fetch::NoFetch, cycles: 4 },
        0x06 => Decoded { instr: Instr::Ld(Pat8::R(Reg8::B), Pat8::N), fetch: Fetch::N, cycles: 7 },
        0x07 => Decoded { instr: Instr::RotA(Rotation::Rlc), fetch: Fetch::NoFetch, cycles: 4 },
        0x08 => Decoded { instr: Instr::Ex(Pat16::R(Reg16::AF), Reg16::AF0), fetch: Fetch::NoFetch, cycles: 4 },
        0x09 => Decoded { instr: Instr::Add16(Reg16::IY, Reg16::BC), fetch: Fetch::NoFetch, cycles: 11 },
        0x0A => Decoded { instr: Instr::Ld(Pat8::R(Reg8::A), Pat8::At(Reg16::BC)), fetch: Fetch::NoFetch, cycles: 7 },
        0x0B => Decoded { instr: Instr::Dec16(Reg16::BC), fetch: Fetch::NoFetch, cycles: 6 },
        0x0C => Decoded { instr: Instr::IncDec(Pat8::R(Reg8::C), false), fetch: Fetch::NoFetch, cycles: 4 },
        0x0D => Decoded { instr: Instr::IncDec(Pat8::R(Reg8::C), true), fetch: Fetch::NoFetch, cycles: 4 },
        0x0E => Decoded { instr: Instr::Ld(Pat8::R(Reg8::C), Pat8::N), fetch: Fetch::N, cycles: 7 },
        0x0F => Decoded { instr: Instr::RotA(Rotation::Rrc), fetch: Fetch::NoFetch, cycles: 4 },
        0x10 => Decoded { instr: Instr::Djnz, fetch: Fetch::E, cycles: 8 },
        0x11 => Decoded { instr: Instr::Ld16(Pat16::R(Reg16::DE), Pat16::NN), fetch: Fetch::NN, cycles: 10 },
        0x12 => Decoded { instr: Instr::Ld(Pat8::At(Reg16::DE), Pat8::R(Reg8::A)), fetch: Fetch::NoFetch, cycles: 7 },
        0x13 => Decoded { instr: Instr::Inc16(Reg16::DE), fetch: Fetch::NoFetch, cycles: 6 },
        0x14 => Decoded { instr: Instr::IncDec(Pat8::R(Reg8::D), false), fetch: Fetch::NoFetch, cycles: 4 },
        0x15 => Decoded { instr: Instr::IncDec(Pat8::R(Reg8::D), true), fetch: Fetch::NoFetch, cycles: 4 },
        0x16 => Decoded { instr: Instr::Ld(Pat8::R(Reg8::D), Pat8::N), fetch: Fetch::N, cycles: 7 },
        0x17 => Decoded { instr: Instr::RotA(Rotation::Rl), fetch: Fetch::NoFetch, cycles: 4 },
        0x18 => Decoded { instr: Instr::Jr, fetch: Fetch::E, cycles: 12 },
        0x19 => Decoded { instr: Instr::Add16(Reg16::IY, Reg16::DE), fetch: Fetch::NoFetch, cycles: 11 },
        0x1A => Decoded { instr: Instr::Ld(Pat8::R(Reg8::A), Pat8::At(Reg16::DE)), fetch: Fetch::NoFetch, cycles: 7 },
        0x1B => Decoded { instr: Instr::Dec16(Reg16::DE), fetch: Fetch::NoFetch, cycles: 6 },
        0x1C => Decoded { instr: Instr::IncDec(Pat8::R(Reg8::E), false), fetch: Fetch::NoFetch, cycles: 4 },
        0x1D => Decoded { instr: Instr::IncDec(Pat8::R(Reg8::E), true), fetch: Fetch::NoFetch, cycles: 4 },
        0x1E => Decoded { instr: Instr::Ld(Pat8::R(Reg8::E), Pat8::N), fetch: Fetch::N, cycles: 7 },
        0x1F => Decoded { instr: Instr::RotA(Rotation::Rr), fetch: Fetch::NoFetch, cycles: 4 },
        0x20 => Decoded { instr: Instr::Jrcc(ConditionCode::NZcc), fetch: Fetch::E, cycles: 0 },
        0x21 => Decoded { instr: Instr::Ld16(Pat16::R(Reg16::IY), Pat16::NN), fetch: Fetch::NN, cycles: 10 },
        0x22 => Decoded { instr: Instr::Ld16(Pat16::AtNN, Pat16::R(Reg16::IY)), fetch: Fetch::NN, cycles: 16 },
        0x23 => Decoded { instr: Instr::Inc16(Reg16::IY), fetch: Fetch::NoFetch, cycles: 6 },
        0x24 => Decoded { instr: Instr::IncDec(Pat8::R(Reg8::IYH), false), fetch: Fetch::NoFetch, cycles: 4 },
        0x25 => Decoded { instr: Instr::IncDec(Pat8::R(Reg8::IYH), true), fetch: Fetch::NoFetch, cycles: 4 },
        0x26 => Decoded { instr: Instr::Ld(Pat8::R(Reg8::IYH), Pat8::N), fetch: Fetch::N, cycles: 7 },
        0x27 => Decoded { instr: Instr::Daa, fetch: Fetch::NoFetch, cycles: 4 },
        0x28 => Decoded { instr: Instr::Jrcc(ConditionCode::Zcc), fetch: Fetch::E, cycles: 0 },
        0x29 => Decoded { instr: Instr::Add16(Reg16::IY, Reg16::IY), fetch: Fetch::NoFetch, cycles: 11 },
        0x2A => Decoded { instr: Instr::Ld16(Pat16::R(Reg16::IY), Pat16::AtNN), fetch: Fetch::NN, cycles: 16 },
        0x2B => Decoded { instr: Instr::Dec16(Reg16::IY), fetch: Fetch::NoFetch, cycles: 6 },
        0x2C => Decoded { instr: Instr::IncDec(Pat8::R(Reg8::IYL), false), fetch: Fetch::NoFetch, cycles: 4 },
        0x2D => Decoded { instr: Instr::IncDec(Pat8::R(Reg8::IYL), true), fetch: Fetch::NoFetch, cycles: 4 },
        0x2E => Decoded { instr: Instr::Ld(Pat8::R(Reg8::IYL), Pat8::N), fetch: Fetch::N, cycles: 7 },
        0x2F => Decoded { instr: Instr::Cpl, fetch: Fetch::NoFetch, cycles: 4 },
        0x30 => Decoded { instr: Instr::Jrcc(ConditionCode::NCcc), fetch: Fetch::E, cycles: 0 },
        0x31 => Decoded { instr: Instr::Ld16(Pat16::R(Reg16::SP), Pat16::NN), fetch: Fetch::NN, cycles: 10 },
        0x32 => Decoded { instr: Instr::Ld(Pat8::AtNN, Pat8::R(Reg8::A)), fetch: Fetch::NN, cycles: 13 },
        0x33 => Decoded { instr: Instr::Inc16(Reg16::SP), fetch: Fetch::NoFetch, cycles: 6 },
        0x34 => Decoded { instr: Instr::IncDec(Pat8::Idx(Reg16::IY), false), fetch: Fetch::E, cycles: 19 },
        0x35 => Decoded { instr: Instr::IncDec(Pat8::Idx(Reg16::IY), true), fetch: Fetch::E, cycles: 19 },
        0x36 => Decoded { instr: Instr::Ld(Pat8::Idx(Reg16::IY), Pat8::N), fetch: Fetch::DN, cycles: 15 },
        0x37 => Decoded { instr: Instr::Scf, fetch: Fetch::NoFetch, cycles: 4 },
        0x38 => Decoded { instr: Instr::Jrcc(ConditionCode::Ccc), fetch: Fetch::E, cycles: 0 },
        0x39 => Decoded { instr: Instr::Add16(Reg16::IY, Reg16::SP), fetch: Fetch::NoFetch, cycles: 11 },
        0x3A => Decoded { instr: Instr::Ld(Pat8::R(Reg8::A), Pat8::AtNN), fetch: Fetch::NN, cycles: 13 },
        0x3B => Decoded { instr: Instr::Dec16(Reg16::SP), fetch: Fetch::NoFetch, cycles: 6 },
        0x3C => Decoded { instr: Instr::IncDec(Pat8::R(Reg8::A), false), fetch: Fetch::NoFetch, cycles: 4 },
        0x3D => Decoded { instr: Instr::IncDec(Pat8::R(Reg8::A), true), fetch: Fetch::NoFetch, cycles: 4 },
        0x3E => Decoded { instr: Instr::Ld(Pat8::R(Reg8::A), Pat8::N), fetch: Fetch::N, cycles: 7 },
        0x3F => Decoded { instr: Instr::Ccf, fetch: Fetch::NoFetch, cycles: 4 },
        0x40 => Decoded { instr: Instr::Ld(Pat8::R(Reg8::B), Pat8::R(Reg8::B)), fetch: Fetch::NoFetch, cycles: 4 },
        0x41 => Decoded { instr: Instr::Ld(Pat8::R(Reg8::B), Pat8::R(Reg8::C)), fetch: Fetch::NoFetch, cycles: 4 },
        0x42 => Decoded { instr: Instr::Ld(Pat8::R(Reg8::B), Pat8::R(Reg8::D)), fetch: Fetch::NoFetch, cycles: 4 },
        0x43 => Decoded { instr: Instr::Ld(Pat8::R(Reg8::B), Pat8::R(Reg8::E)), fetch: Fetch::NoFetch, cycles: 4 },
        0x44 => Decoded { instr: Instr::Ld(Pat8::R(Reg8::B), Pat8::R(Reg8::IYH)), fetch: Fetch::NoFetch, cycles: 4 },
        0x45 => Decoded { instr: Instr::Ld(Pat8::R(Reg8::B), Pat8::R(Reg8::IYL)), fetch: Fetch::NoFetch, cycles: 4 },
        0x46 => Decoded { instr: Instr::Ld(Pat8::R(Reg8::B), Pat8::Idx(Reg16::IY)), fetch: Fetch::E, cycles: 15 },
        0x47 => Decoded { instr: Instr::Ld(Pat8::R(Reg8::B), Pat8::R(Reg8::A)), fetch: Fetch::NoFetch, cycles: 4 },
        0x48 => Decoded { instr: Instr::Ld(Pat8::R(Reg8::C), Pat8::R(Reg8::B)), fetch: Fetch::NoFetch, cycles: 4 },
        0x49 => Decoded { instr: Instr::Ld(Pat8::R(Reg8::C), Pat8::R(Reg8::C)), fetch: Fetch::NoFetch, cycles: 4 },
        0x4A => Decoded { instr: Instr::Ld(Pat8::R(Reg8::C), Pat8::R(Reg8::D)), fetch: Fetch::NoFetch, cycles: 4 },
        0x4B => Decoded { instr: Instr::Ld(Pat8::R(Reg8::C), Pat8::R(Reg8::E)), fetch: Fetch::NoFetch, cycles: 4 },
        0x4C => Decoded { instr: Instr::Ld(Pat8::R(Reg8::C), Pat8::R(Reg8::IYH)), fetch: Fetch::NoFetch, cycles: 4 },
        0x4D => Decoded { instr: Instr::Ld(Pat8::R(Reg8::C), Pat8::R(Reg8::IYL)), fetch: Fetch::NoFetch, cycles: 4 },
        0x4E => Decoded { instr: Instr::Ld(Pat8::R(Reg8::C), Pat8::Idx(Reg16::IY)), fetch: Fetch::E, cycles: 15 },
        0x4F => Decoded { instr: Instr::Ld(Pat8::R(Reg8::C), Pat8::R(Reg8::A)), fetch: Fetch::NoFetch, cycles: 4 },
        0x50 => Decoded { instr: Instr::Ld(Pat8::R(Reg8::D), Pat8::R(Reg8::B)), fetch: Fetch::NoFetch, cycles: 4 },
        0x51 => Decoded { instr: Instr::Ld(Pat8::R(Reg8::D), Pat8::R(Reg8::C)), fetch: Fetch::NoFetch, cycles: 4 },
        0x52 => Decoded { instr: Instr::Ld(Pat8::R(Reg8::D), Pat8::R(Reg8::D)), fetch: Fetch::NoFetch, cycles: 4 },
        0x53 => Decoded { instr: Instr::Ld(Pat8::R(Reg8::D), Pat8::R(Reg8::E)), fetch: Fetch::NoFetch, cycles: 4 },
        0x54 => Decoded { instr: Instr::Ld(Pat8::R(Reg8::D), Pat8::R(Reg8::IYH)), fetch: Fetch::NoFetch, cycles: 4 },
        0x55 => Decoded { instr: Instr::Ld(Pat8::R(Reg8::D), Pat8::R(Reg8::IYL)), fetch: Fetch::NoFetch, cycles: 4 },
        0x56 => Decoded { instr: Instr::Ld(Pat8::R(Reg8::D), Pat8::Idx(Reg16::IY)), fetch: Fetch::E, cycles: 15 },
        0x57 => Decoded { instr: Instr::Ld(Pat8::R(Reg8::D), Pat8::R(Reg8::A)), fetch: Fetch::NoFetch, cycles: 4 },
        0x58 => Decoded { instr: Instr::Ld(Pat8::R(Reg8::E), Pat8::R(Reg8::B)), fetch: Fetch::NoFetch, cycles: 4 },
        0x59 => Decoded { instr: Instr::Ld(Pat8::R(Reg8::E), Pat8::R(Reg8::C)), fetch: Fetch::NoFetch, cycles: 4 },
        0x5A => Decoded { instr: Instr::Ld(Pat8::R(Reg8::E), Pat8::R(Reg8::D)), fetch: Fetch::NoFetch, cycles: 4 },
        0x5B => Decoded { instr: Instr::Ld(Pat8::R(Reg8::E), Pat8::R(Reg8::E)), fetch: Fetch::NoFetch, cycles: 4 },
        0x5C => Decoded { instr: Instr::Ld(Pat8::R(Reg8::E), Pat8::R(Reg8::IYH)), fetch: Fetch::NoFetch, cycles: 4 },
        0x5D => Decoded { instr: Instr::Ld(Pat8::R(Reg8::E), Pat8::R(Reg8::IYL)), fetch: Fetch::NoFetch, cycles: 4 },
        0x5E => Decoded { instr: Instr::Ld(Pat8::R(Reg8::E), Pat8::Idx(Reg16::IY)), fetch: Fetch::E, cycles: 15 },
        0x5F => Decoded { instr: Instr::Ld(Pat8::R(Reg8::E), Pat8::R(Reg8::A)), fetch: Fetch::NoFetch, cycles: 4 },
        0x60 => Decoded { instr: Instr::Ld(Pat8::R(Reg8::IYH), Pat8::R(Reg8::B)), fetch: Fetch::NoFetch, cycles: 4 },
        0x61 => Decoded { instr: Instr::Ld(Pat8::R(Reg8::IYH), Pat8::R(Reg8::C)), fetch: Fetch::NoFetch, cycles: 4 },
        0x62 => Decoded { instr: Instr::Ld(Pat8::R(Reg8::IYH), Pat8::R(Reg8::D)), fetch: Fetch::NoFetch, cycles: 4 },
        0x63 => Decoded { instr: Instr::Ld(Pat8::R(Reg8::IYH), Pat8::R(Reg8::E)), fetch: Fetch::NoFetch, cycles: 4 },
        0x64 => Decoded { instr: Instr::Ld(Pat8::R(Reg8::IYH), Pat8::R(Reg8::IYH)), fetch: Fetch::NoFetch, cycles: 4 },
        0x65 => Decoded { instr: Instr::Ld(Pat8::R(Reg8::IYH), Pat8::R(Reg8::IYL)), fetch: Fetch::NoFetch, cycles: 4 },
        0x66 => Decoded { instr: Instr::Ld(Pat8::R(Reg8::H), Pat8::Idx(Reg16::IY)), fetch: Fetch::E, cycles: 15 },
        0x67 => Decoded { instr: Instr::Ld(Pat8::R(Reg8::IYH), Pat8::R(Reg8::A)), fetch: Fetch::NoFetch, cycles: 4 },
        0x68 => Decoded { instr: Instr::Ld(Pat8::R(Reg8::IYL), Pat8::R(Reg8::B)), fetch: Fetch::NoFetch, cycles: 4 },
        0x69 => Decoded { instr: Instr::Ld(Pat8::R(Reg8::IYL), Pat8::R(Reg8::C)), fetch: Fetch::NoFetch, cycles: 4 },
        0x6A => Decoded { instr: Instr::Ld(Pat8::R(Reg8::IYL), Pat8::R(Reg8::D)), fetch: Fetch::NoFetch, cycles: 4 },
        0x6B => Decoded { instr: Instr::Ld(Pat8::R(Reg8::IYL), Pat8::R(Reg8::E)), fetch: Fetch::NoFetch, cycles: 4 },
        0x6C => Decoded { instr: Instr::Ld(Pat8::R(Reg8::IYL), Pat8::R(Reg8::IYH)), fetch: Fetch::NoFetch, cycles: 4 },
        0x6D => Decoded { instr: Instr::Ld(Pat8::R(Reg8::IYL), Pat8::R(Reg8::IYL)), fetch: Fetch::NoFetch, cycles: 4 },
        0x6E => Decoded { instr: Instr::Ld(Pat8::R(Reg8::L), Pat8::Idx(Reg16::IY)), fetch: Fetch::E, cycles: 15 },
        0x6F => Decoded { instr: Instr::Ld(Pat8::R(Reg8::IYL), Pat8::R(Reg8::A)), fetch: Fetch::NoFetch, cycles: 4 },
        0x70 => Decoded { instr: Instr::Ld(Pat8::Idx(Reg16::IY), Pat8::R(Reg8::B)), fetch: Fetch::E, cycles: 15 },
        0x71 => Decoded { instr: Instr::Ld(Pat8::Idx(Reg16::IY), Pat8::R(Reg8::C)), fetch: Fetch::E, cycles: 15 },
        0x72 => Decoded { instr: Instr::Ld(Pat8::Idx(Reg16::IY), Pat8::R(Reg8::D)), fetch: Fetch::E, cycles: 15 },
        0x73 => Decoded { instr: Instr::Ld(Pat8::Idx(Reg16::IY), Pat8::R(Reg8::E)), fetch: Fetch::E, cycles: 15 },
        0x74 => Decoded { instr: Instr::Ld(Pat8::Idx(Reg16::IY), Pat8::R(Reg8::H)), fetch: Fetch::E, cycles: 15 },
        0x75 => Decoded { instr: Instr::Ld(Pat8::Idx(Reg16::IY), Pat8::R(Reg8::L)), fetch: Fetch::E, cycles: 15 },
        0x76 => Decoded { instr: Instr::Halt, fetch: Fetch::NoFetch, cycles: 4 },
        0x77 => Decoded { instr: Instr::Ld(Pat8::Idx(Reg16::IY), Pat8::R(Reg8::A)), fetch: Fetch::E, cycles: 15 },
        0x78 => Decoded { instr: Instr::Ld(Pat8::R(Reg8::A), Pat8::R(Reg8::B)), fetch: Fetch::NoFetch, cycles: 4 },
        0x79 => Decoded { instr: Instr::Ld(Pat8::R(Reg8::A), Pat8::R(Reg8::C)), fetch: Fetch::NoFetch, cycles: 4 },
        0x7A => Decoded { instr: Instr::Ld(Pat8::R(Reg8::A), Pat8::R(Reg8::D)), fetch: Fetch::NoFetch, cycles: 4 },
        0x7B => Decoded { instr: Instr::Ld(Pat8::R(Reg8::A), Pat8::R(Reg8::E)), fetch: Fetch::NoFetch, cycles: 4 },
        0x7C => Decoded { instr: Instr::Ld(Pat8::R(Reg8::A), Pat8::R(Reg8::IYH)), fetch: Fetch::NoFetch, cycles: 4 },
        0x7D => Decoded { instr: Instr::Ld(Pat8::R(Reg8::A), Pat8::R(Reg8::IYL)), fetch: Fetch::NoFetch, cycles: 4 },
        0x7E => Decoded { instr: Instr::Ld(Pat8::R(Reg8::A), Pat8::Idx(Reg16::IY)), fetch: Fetch::E, cycles: 15 },
        0x7F => Decoded { instr: Instr::Ld(Pat8::R(Reg8::A), Pat8::R(Reg8::A)), fetch: Fetch::NoFetch, cycles: 4 },
        0x80 => Decoded { instr: Instr::Add(Reg8::A, Pat8::R(Reg8::B), false), fetch: Fetch::NoFetch, cycles: 4 },
        0x81 => Decoded { instr: Instr::Add(Reg8::A, Pat8::R(Reg8::C), false), fetch: Fetch::NoFetch, cycles: 4 },
        0x82 => Decoded { instr: Instr::Add(Reg8::A, Pat8::R(Reg8::D), false), fetch: Fetch::NoFetch, cycles: 4 },
        0x83 => Decoded { instr: Instr::Add(Reg8::A, Pat8::R(Reg8::E), false), fetch: Fetch::NoFetch, cycles: 4 },
        0x84 => Decoded { instr: Instr::Add(Reg8::A, Pat8::R(Reg8::IYH), false), fetch: Fetch::NoFetch, cycles: 4 },
        0x85 => Decoded { instr: Instr::Add(Reg8::A, Pat8::R(Reg8::IYL), false), fetch: Fetch::NoFetch, cycles: 4 },
        0x86 => Decoded { instr: Instr::Add(Reg8::A, Pat8::Idx(Reg16::IY), false), fetch: Fetch::E, cycles: 15 },
        0x87 => Decoded { instr: Instr::Add(Reg8::A, Pat8::R(Reg8::A), false), fetch: Fetch::NoFetch, cycles: 4 },
        0x88 => Decoded { instr: Instr::Add(Reg8::A, Pat8::R(Reg8::B), true), fetch: Fetch::NoFetch, cycles: 4 },
        0x89 => Decoded { instr: Instr::Add(Reg8::A, Pat8::R(Reg8::C), true), fetch: Fetch::NoFetch, cycles: 4 },
        0x8A => Decoded { instr: Instr::Add(Reg8::A, Pat8::R(Reg8::D), true), fetch: Fetch::NoFetch, cycles: 4 },
        0x8B => Decoded { instr: Instr::Add(Reg8::A, Pat8::R(Reg8::E), true), fetch: Fetch::NoFetch, cycles: 4 },
        0x8C => Decoded { instr: Instr::Add(Reg8::A, Pat8::R(Reg8::IYH), true), fetch: Fetch::NoFetch, cycles: 4 },
        0x8D => Decoded { instr: Instr::Add(Reg8::A, Pat8::R(Reg8::IYL), true), fetch: Fetch::NoFetch, cycles: 4 },
        0x8E => Decoded { instr: Instr::Add(Reg8::A, Pat8::Idx(Reg16::IY), true), fetch: Fetch::E, cycles: 15 },
        0x8F => Decoded { instr: Instr::Add(Reg8::A, Pat8::R(Reg8::A), true), fetch: Fetch::NoFetch, cycles: 4 },
        0x90 => Decoded { instr: Instr::Sub(Reg8::A, Pat8::R(Reg8::B), false), fetch: Fetch::NoFetch, cycles: 4 },
        0x91 => Decoded { instr: Instr::Sub(Reg8::A, Pat8::R(Reg8::C), false), fetch: Fetch::NoFetch, cycles: 4 },
        0x92 => Decoded { instr: Instr::Sub(Reg8::A, Pat8::R(Reg8::D), false), fetch: Fetch::NoFetch, cycles: 4 },
        0x93 => Decoded { instr: Instr::Sub(Reg8::A, Pat8::R(Reg8::E), false), fetch: Fetch::NoFetch, cycles: 4 },
        0x94 => Decoded { instr: Instr::Sub(Reg8::A, Pat8::R(Reg8::IYH), false), fetch: Fetch::NoFetch, cycles: 4 },
        0x95 => Decoded { instr: Instr::Sub(Reg8::A, Pat8::R(Reg8::IYL), false), fetch: Fetch::NoFetch, cycles: 4 },
        0x96 => Decoded { instr: Instr::Sub(Reg8::A, Pat8::Idx(Reg16::IY), false), fetch: Fetch::E, cycles: 15 },
        0x97 => Decoded { instr: Instr::Sub(Reg8::A, Pat8::R(Reg8::A), false), fetch: Fetch::NoFetch, cycles: 4 },
        0x98 => Decoded { instr: Instr::Sub(Reg8::A, Pat8::R(Reg8::B), true), fetch: Fetch::NoFetch, cycles: 4 },
        0x99 => Decoded { instr: Instr::Sub(Reg8::A, Pat8::R(Reg8::C), true), fetch: Fetch::NoFetch, cycles: 4 },
        0x9A => Decoded { instr: Instr::Sub(Reg8::A, Pat8::R(Reg8::D), true), fetch: Fetch::NoFetch, cycles: 4 },
        0x9B => Decoded { instr: Instr::Sub(Reg8::A, Pat8::R(Reg8::E), true), fetch: Fetch::NoFetch, cycles: 4 },
        0x9C => Decoded { instr: Instr::Sub(Reg8::A, Pat8::R(Reg8::IYH), true), fetch: Fetch::NoFetch, cycles: 4 },
        0x9D => Decoded { instr: Instr::Sub(Reg8::A, Pat8::R(Reg8::IYL), true), fetch: Fetch::NoFetch, cycles: 4 },
        0x9E => Decoded { instr: Instr::Sub(Reg8::A, Pat8::Idx(Reg16::IY), true), fetch: Fetch::E, cycles: 15 },
        0x9F => Decoded { instr: Instr::Sub(Reg8::A, Pat8::R(Reg8::A), true), fetch: Fetch::NoFetch, cycles: 4 },
        0xA0 => Decoded { instr: Instr::Logic(Logic::And, Pat8::R(Reg8::B)), fetch: Fetch::NoFetch, cycles: 4 },
        0xA1 => Decoded { instr: Instr::Logic(Logic::And, Pat8::R(Reg8::C)), fetch: Fetch::NoFetch, cycles: 4 },
        0xA2 => Decoded { instr: Instr::Logic(Logic::And, Pat8::R(Reg8::D)), fetch: Fetch::NoFetch, cycles: 4 },
        0xA3 => Decoded { instr: Instr::Logic(Logic::And, Pat8::R(Reg8::E)), fetch: Fetch::NoFetch, cycles: 4 },
        0xA4 => Decoded { instr: Instr::Logic(Logic::And, Pat8::R(Reg8::IYH)), fetch: Fetch::NoFetch, cycles: 4 },
        0xA5 => Decoded { instr: Instr::Logic(Logic::And, Pat8::R(Reg8::IYL)), fetch: Fetch::NoFetch, cycles: 4 },
        0xA6 => Decoded { instr: Instr::Logic(Logic::And, Pat8::Idx(Reg16::IY)), fetch: Fetch::E, cycles: 15 },
        0xA7 => Decoded { instr: Instr::Logic(Logic::And, Pat8::R(Reg8::A)), fetch: Fetch::NoFetch, cycles: 4 },
        0xA8 => Decoded { instr: Instr::Logic(Logic::Xor, Pat8::R(Reg8::B)), fetch: Fetch::NoFetch, cycles: 4 },
        0xA9 => Decoded { instr: Instr::Logic(Logic::Xor, Pat8::R(Reg8::C)), fetch: Fetch::NoFetch, cycles: 4 },
        0xAA => Decoded { instr: Instr::Logic(Logic::Xor, Pat8::R(Reg8::D)), fetch: Fetch::NoFetch, cycles: 4 },
        0xAB => Decoded { instr: Instr::Logic(Logic::Xor, Pat8::R(Reg8::E)), fetch: Fetch::NoFetch, cycles: 4 },
        0xAC => Decoded { instr: Instr::Logic(Logic::Xor, Pat8::R(Reg8::IYH)), fetch: Fetch::NoFetch, cycles: 4 },
        0xAD => Decoded { instr: Instr::Logic(Logic::Xor, Pat8::R(Reg8::IYL)), fetch: Fetch::NoFetch, cycles: 4 },
        0xAE => Decoded { instr: Instr::Logic(Logic::Xor, Pat8::Idx(Reg16::IY)), fetch: Fetch::E, cycles: 15 },
        0xAF => Decoded { instr: Instr::Logic(Logic::Xor, Pat8::R(Reg8::A)), fetch: Fetch::NoFetch, cycles: 4 },
        0xB0 => Decoded { instr: Instr::Logic(Logic::Or, Pat8::R(Reg8::B)), fetch: Fetch::NoFetch, cycles: 4 },
        0xB1 => Decoded { instr: Instr::Logic(Logic::Or, Pat8::R(Reg8::C)), fetch: Fetch::NoFetch, cycles: 4 },
        0xB2 => Decoded { instr: Instr::Logic(Logic::Or, Pat8::R(Reg8::D)), fetch: Fetch::NoFetch, cycles: 4 },
        0xB3 => Decoded { instr: Instr::Logic(Logic::Or, Pat8::R(Reg8::E)), fetch: Fetch::NoFetch, cycles: 4 },
        0xB4 => Decoded { instr: Instr::Logic(Logic::Or, Pat8::R(Reg8::IYH)), fetch: Fetch::NoFetch, cycles: 4 },
        0xB5 => Decoded { instr: Instr::Logic(Logic::Or, Pat8::R(Reg8::IYL)), fetch: Fetch::NoFetch, cycles: 4 },
        0xB6 => Decoded { instr: Instr::Logic(Logic::Or, Pat8::Idx(Reg16::IY)), fetch: Fetch::E, cycles: 15 },
        0xB7 => Decoded { instr: Instr::Logic(Logic::Or, Pat8::R(Reg8::A)), fetch: Fetch::NoFetch, cycles: 4 },
        0xB8 => Decoded { instr: Instr::Cp(Pat8::R(Reg8::B)), fetch: Fetch::NoFetch, cycles: 4 },
        0xB9 => Decoded { instr: Instr::Cp(Pat8::R(Reg8::C)), fetch: Fetch::NoFetch, cycles: 4 },
        0xBA => Decoded { instr: Instr::Cp(Pat8::R(Reg8::D)), fetch: Fetch::NoFetch, cycles: 4 },
        0xBB => Decoded { instr: Instr::Cp(Pat8::R(Reg8::E)), fetch: Fetch::NoFetch, cycles: 4 },
        0xBC => Decoded { instr: Instr::Cp(Pat8::R(Reg8::IYH)), fetch: Fetch::NoFetch, cycles: 4 },
        0xBD => Decoded { instr: Instr::Cp(Pat8::R(Reg8::IYL)), fetch: Fetch::NoFetch, cycles: 4 },
        0xBE => Decoded { instr: Instr::Cp(Pat8::Idx(Reg16::IY)), fetch: Fetch::E, cycles: 15 },
        0xBF => Decoded { instr: Instr::Cp(Pat8::R(Reg8::A)), fetch: Fetch::NoFetch, cycles: 4 },
        0xC0 => Decoded { instr: Instr::Retcc(ConditionCode::NZcc), fetch: Fetch::NoFetch, cycles: 5 },
        0xC1 => Decoded { instr: Instr::Pop(Reg16::BC), fetch: Fetch::NoFetch, cycles: 10 },
        0xC2 => Decoded { instr: Instr::Jpcc(ConditionCode::NZcc), fetch: Fetch::NN, cycles: 10 },
        0xC3 => Decoded { instr: Instr::Jp(Pat16::NN), fetch: Fetch::NN, cycles: 10 },
        0xC4 => Decoded { instr: Instr::Callcc(ConditionCode::NZcc), fetch: Fetch::NN, cycles: 0 },
        0xC5 => Decoded { instr: Instr::Push(Reg16::BC), fetch: Fetch::NoFetch, cycles: 11 },
        0xC6 => Decoded { instr: Instr::Add(Reg8::A, Pat8::N, false), fetch: Fetch::N, cycles: 7 },
        0xC7 => Decoded { instr: Instr::Rst(0), fetch: Fetch::NoFetch, cycles: 11 },
        0xC8 => Decoded { instr: Instr::Retcc(ConditionCode::Zcc), fetch: Fetch::NoFetch, cycles: 5 },
        0xC9 => Decoded { instr: Instr::Ret, fetch: Fetch::NoFetch, cycles: 10 },
        0xCA => Decoded { instr: Instr::Jpcc(ConditionCode::Zcc), fetch: Fetch::NN, cycles: 10 },
        0xCB => Decoded { instr: Instr::SetPrefix(Prefix::FdCb), fetch: Fetch::NoFetch, cycles: 0 },
        0xCC => Decoded { instr: Instr::Callcc(ConditionCode::Zcc), fetch: Fetch::NN, cycles: 0 },
        0xCD => Decoded { instr: Instr::Call, fetch: Fetch::NN, cycles: 17 },
        0xCE => Decoded { instr: Instr::Add(Reg8::A, Pat8::N, true), fetch: Fetch::N, cycles: 7 },
        0xCF => Decoded { instr: Instr::Rst(8), fetch: Fetch::NoFetch, cycles: 11 },
        0xD0 => Decoded { instr: Instr::Retcc(ConditionCode::NCcc), fetch: Fetch::NoFetch, cycles: 5 },
        0xD1 => Decoded { instr: Instr::Pop(Reg16::DE), fetch: Fetch::NoFetch, cycles: 10 },
        0xD2 => Decoded { instr: Instr::Jpcc(ConditionCode::NCcc), fetch: Fetch::NN, cycles: 10 },
        0xD3 => Decoded { instr: Instr::OutN(Reg8::A), fetch: Fetch::N, cycles: 11 },
        0xD4 => Decoded { instr: Instr::Callcc(ConditionCode::NCcc), fetch: Fetch::NN, cycles: 0 },
        0xD5 => Decoded { instr: Instr::Push(Reg16::DE), fetch: Fetch::NoFetch, cycles: 11 },
        0xD6 => Decoded { instr: Instr::Sub(Reg8::A, Pat8::N, false), fetch: Fetch::N, cycles: 7 },
        0xD7 => Decoded { instr: Instr::Rst(16), fetch: Fetch::NoFetch, cycles: 11 },
        0xD8 => Decoded { instr: Instr::Retcc(ConditionCode::Ccc), fetch: Fetch::NoFetch, cycles: 5 },
        0xD9 => Decoded { instr: Instr::Exx, fetch: Fetch::NoFetch, cycles: 4 },
        0xDA => Decoded { instr: Instr::Jpcc(ConditionCode::Ccc), fetch: Fetch::NN, cycles: 10 },
        0xDB => Decoded { instr: Instr::InN(Reg8::A), fetch: Fetch::N, cycles: 11 },
        0xDC => Decoded { instr: Instr::Callcc(ConditionCode::Ccc), fetch: Fetch::NN, cycles: 0 },
        0xDD => Decoded { instr: Instr::SetPrefix(Prefix::Dd), fetch: Fetch::NoFetch, cycles: 4 },
        0xDE => Decoded { instr: Instr::Sub(Reg8::A, Pat8::N, true), fetch: Fetch::N, cycles: 7 },
        0xDF => Decoded { instr: Instr::Rst(24), fetch: Fetch::NoFetch, cycles: 11 },
        0xE0 => Decoded { instr: Instr::Retcc(ConditionCode::POcc), fetch: Fetch::NoFetch, cycles: 5 },
        0xE1 => Decoded { instr: Instr::Pop(Reg16::IY), fetch: Fetch::NoFetch, cycles: 10 },
        0xE2 => Decoded { instr: Instr::Jpcc(ConditionCode::POcc), fetch: Fetch::NN, cycles: 10 },
        0xE3 => Decoded { instr: Instr::Ex(Pat16::At(Reg16::SP), Reg16::IY), fetch: Fetch::NoFetch, cycles: 19 },
        0xE4 => Decoded { instr: Instr::Callcc(ConditionCode::POcc), fetch: Fetch::NN, cycles: 0 },
        0xE5 => Decoded { instr: Instr::Push(Reg16::IY), fetch: Fetch::NoFetch, cycles: 11 },
        0xE6 => Decoded { instr: Instr::Logic(Logic::And, Pat8::N), fetch: Fetch::N, cycles: 7 },
        0xE7 => Decoded { instr: Instr::Rst(32), fetch: Fetch::NoFetch, cycles: 11 },
        0xE8 => Decoded { instr: Instr::Retcc(ConditionCode::PEcc), fetch: Fetch::NoFetch, cycles: 5 },
        0xE9 => Decoded { instr: Instr::Jp(Pat16::R(Reg16::IY)), fetch: Fetch::NoFetch, cycles: 4 },
        0xEA => Decoded { instr: Instr::Jpcc(ConditionCode::PEcc), fetch: Fetch::NN, cycles: 10 },
        0xEB => Decoded { instr: Instr::Ex(Pat16::R(Reg16::DE), Reg16::HL), fetch: Fetch::NoFetch, cycles: 4 },
        0xEC => Decoded { instr: Instr::Callcc(ConditionCode::PEcc), fetch: Fetch::NN, cycles: 0 },
        0xED => Decoded { instr: Instr::SetPrefix(Prefix::Ed), fetch: Fetch::NoFetch, cycles: 4 },
        0xEE => Decoded { instr: Instr::Logic(Logic::Xor, Pat8::N), fetch: Fetch::N, cycles: 7 },
        0xEF => Decoded { instr: Instr::Rst(40), fetch: Fetch::NoFetch, cycles: 11 },
        0xF0 => Decoded { instr: Instr::Retcc(ConditionCode::Pcc), fetch: Fetch::NoFetch, cycles: 5 },
        0xF1 => Decoded { instr: Instr::Pop(Reg16::AF), fetch: Fetch::NoFetch, cycles: 10 },
        0xF2 => Decoded { instr: Instr::Jpcc(ConditionCode::Pcc), fetch: Fetch::NN, cycles: 10 },
        0xF3 => Decoded { instr: Instr::Di, fetch: Fetch::NoFetch, cycles: 4 },
        0xF4 => Decoded { instr: Instr::Callcc(ConditionCode::Pcc), fetch: Fetch::NN, cycles: 0 },
        0xF5 => Decoded { instr: Instr::Push(Reg16::AF), fetch: Fetch::NoFetch, cycles: 11 },
        0xF6 => Decoded { instr: Instr::Logic(Logic::Or, Pat8::N), fetch: Fetch::N, cycles: 7 },
        0xF7 => Decoded { instr: Instr::Rst(48), fetch: Fetch::NoFetch, cycles: 11 },
        0xF8 => Decoded { instr: Instr::Retcc(ConditionCode::Mcc), fetch: Fetch::NoFetch, cycles: 5 },
        0xF9 => Decoded { instr: Instr::Ld16(Pat16::R(Reg16::SP), Pat16::R(Reg16::IY)), fetch: Fetch::NoFetch, cycles: 6 },
        0xFA => Decoded { instr: Instr::Jpcc(ConditionCode::Mcc), fetch: Fetch::NN, cycles: 10 },
        0xFB => Decoded { instr: Instr::Ei, fetch: Fetch::NoFetch, cycles: 4 },
        0xFC => Decoded { instr: Instr::Callcc(ConditionCode::Mcc), fetch: Fetch::NN, cycles: 0 },
        0xFD => Decoded { instr: Instr::SetPrefix(Prefix::Fd), fetch: Fetch::NoFetch, cycles: 4 },
        0xFE => Decoded { instr: Instr::Cp(Pat8::N), fetch: Fetch::N, cycles: 7 },
        0xFF => Decoded { instr: Instr::Rst(56), fetch: Fetch::NoFetch, cycles: 11 },
    }
}

/// The instruction an opcode after the 0xED prefix stands for.
pub fn decode_ed(op: u8) -> (d: Decoded)
    ensures
        d == spec_decode_ed(op),
{
    reveal(spec_decode_ed);
    match op {
        0x00 => Decoded { instr: Instr::Nop, fetch: Fetch::NoFetch, cycles: 8 },
        0x01 => Decoded { instr: Instr::Nop, fetch: Fetch::NoFetch, cycles: 8 },
        0x02 => Decoded { instr: Instr::Nop, fetch: Fetch::NoFetch, cycles: 8 },
        0x03 => Decoded { instr: Instr::Nop, fetch: Fetch::NoFetch, cycles: 8 },
        0x04 => Decoded { instr: Instr::Nop, fetch: Fetch::NoFetch, cycles: 8 },
        0x05 => Decoded { instr: Instr::Nop, fetch: Fetch::NoFetch, cycles: 8 },
        0x06 => Decoded { instr: Instr::Nop, fetch: Fetch::NoFetch, cycles: 8 },
        0x07 => Decoded { instr: Instr::Nop, fetch: Fetch::NoFetch, cycles: 8 },
        0x08 => Decoded { instr: Instr::Nop, fetch: Fetch::NoFetch, cycles: 8 },
        0x09 => Decoded { instr: Instr::Nop, fetch: Fetch::NoFetch, cycles: 8 },
        0x0A => Decoded { instr: Instr::Nop, fetch: Fetch::NoFetch, cycles: 8 },
        0x0B => Decoded { instr: Instr::Nop, fetch: Fetch::NoFetch, cycles: 8 },
        0x0C => Decoded { instr: Instr::Nop, fetch: Fetch::NoFetch, cycles: 8 },
        0x0D => Decoded { instr: Instr::Nop, fetch: Fetch::NoFetch, cycles: 8 },
        0x0E => Decoded { instr: Instr::Nop, fetch: Fetch::NoFetch, cycles: 8 },
        0x0F => Decoded { instr: Instr::Nop, fetch: Fetch::NoFetch, cycles: 8 },
        0x10 => Decoded { instr: Instr::Nop, fetch: Fetch::NoFetch, cycles: 8 },
        0x11 => Decoded { instr: Instr::Nop, fetch: Fetch::NoFetch, cycles: 8 },
        0x12 => Decoded { instr: Instr::Nop, fetch: Fetch::NoFetch, cycles: 8 },
        0x13 => Decoded { instr: Instr::Nop, fetch: Fetch::NoFetch, cycles: 8 },
        0x14 => Decoded { instr: Instr::Nop, fetch: Fetch::NoFetch, cycles: 8 },
        0x15 => Decoded { instr: Instr::Nop, fetch: Fetch::NoFetch, cycles: 8 },
        0x16 => Decoded { instr: Instr::Nop, fetch: Fetch::NoFetch, cycles: 8 },
        0x17 => Decoded { instr: Instr::Nop, fetch: Fetch::NoFetch, cycles: 8 },
        0x18 => Decoded { instr: Instr::Nop, fetch: Fetch::NoFetch, cycles: 8 },
        0x19 => Decoded { instr: Instr::Nop, fetch: Fetch::NoFetch, cycles: 8 },
        0x1A => Decoded { instr: Instr::Nop, fetch: Fetch::NoFetch, cycles: 8 },
        0x1B => Decoded { instr: Instr::Nop, fetch: Fetch::NoFetch, cycles: 8 },
        0x1C => Decoded { instr: Instr::Nop, fetch: Fetch::NoFetch, cycles: 8 },
        0x1D => Decoded { instr: Instr::Nop, fetch: Fetch::NoFetch, cycles: 8 },
        0x1E => Decoded { instr: Instr::Nop, fetch: Fetch::NoFetch, cycles: 8 },
        0x1F => Decoded { instr: Instr::Nop, fetch: Fetch::NoFetch, cycles: 8 },
        0x20 => Decoded { instr: Instr::Nop, fetch: Fetch::NoFetch, cycles: 8 },
        0x21 => Decoded { instr: Instr::Nop, fetch: Fetch::NoFetch, cycles: 8 },
        0x22 => Decoded { instr: Instr::Nop, fetch: Fetch::NoFetch, cycles: 8 },
        0x23 => Decoded { instr: Instr::Nop, fetch: Fetch::NoFetch, cycles: 8 },
        0x24 => Decoded { instr: Instr::Nop, fetch: Fetch::NoFetch, cycles: 8 },
        0x25 => Decoded { instr: Instr::Nop, fetch: Fetch::NoFetch, cycles: 8 },
        0x26 => Decoded { instr: Instr::Nop, fetch: Fetch::NoFetch, cycles: 8 },
        0x27 => Decoded { instr: Instr::Nop, fetch: Fetch::NoFetch, cycles: 8 },
        0x28 => Decoded { instr: Instr::Nop, fetch: Fetch::NoFetch, cycles: 8 },
        0x29 => Decoded { instr: Instr::Nop, fetch: Fetch::NoFetch, cycles: 8 },
        0x2A => Decoded { instr: Instr::Nop, fetch: Fetch::NoFetch, cycles: 8 },
        0x2B => Decoded { instr: Instr::Nop, fetch: Fetch::NoFetch, cycles: 8 },
        0x2C => Decoded { instr: Instr::Nop, fetch: Fetch::NoFetch, cycles: 8 },
        0x2D => Decoded { instr: Instr::Nop, fetch: Fetch::NoFetch, cycles: 8 },
        0x2E => Decoded { instr: Instr::Nop, fetch: Fetch::NoFetch, cycles: 8 },
        0x2F => Decoded { instr: Instr::Nop, fetch: Fetch::NoFetch, cycles: 8 },
        0x30 => Decoded { instr: Instr::Nop, fetch: Fetch::NoFetch, cycles: 8 },
        0x31 => Decoded { instr: Instr::Nop, fetch: Fetch::NoFetch, cycles: 8 },
        0x32 => Decoded { instr: Instr::Nop, fetch: Fetch::NoFetch, cycles: 8 },
        0x33 => Decoded { instr: Instr::Nop, fetch: Fetch::NoFetch, cycles: 8 },
        0x34 => Decoded { instr: Instr::Nop, fetch: Fetch::NoFetch, cycles: 8 },
        0x35 => Decoded { instr: Instr::Nop, fetch: Fetch::NoFetch, cycles: 8 },
        0x36 => Decoded { instr: Instr::Nop, fetch: Fetch::NoFetch, cycles: 8 },
        0x37 => Decoded { instr: Instr::Nop, fetch: Fetch::NoFetch, cycles: 8 },
        0x38 => Decoded { instr: Instr::Nop, fetch: Fetch::NoFetch, cycles: 8 },
        0x39 => Decoded { instr: Instr::Nop, fetch: Fetch::NoFetch, cycles: 8 },
        0x3A => Decoded { instr: Instr::Nop, fetch: Fetch::NoFetch, cycles: 8 },
        0x3B => Decoded { instr: Instr::Nop, fetch: Fetch::NoFetch, cycles: 8 },
        0x3C => Decoded { instr: Instr::Nop, fetch: Fetch::NoFetch, cycles: 8 },
        0x3D => Decoded { instr: Instr::Nop, fetch: Fetch::NoFetch, cycles: 8 },
        0x3E => Decoded { instr: Instr::Nop, fetch: Fetch::NoFetch, cycles: 8 },
        0x3F => Decoded { instr: Instr::Nop, fetch: Fetch::NoFetch, cycles: 8 },
        0x40 => Decoded { instr: Instr::InC(Reg8::B, Reg8::C), fetch: Fetch::NoFetch, cycles: 12 },
        0x41 => Decoded { instr: Instr::OutC(Reg8::C, Pat8::R(Reg8::B)), fetch: Fetch::NoFetch, cycles: 12 },
        0x42 => Decoded { instr: Instr::Sbc16(Reg16::HL, Reg16::BC), fetch: Fetch::NoFetch, cycles: 15 },
        0x43 => Decoded { instr: Instr::Ld16(Pat16::AtNN, Pat16::R(Reg16::BC)), fetch: Fetch::NN, cycles: 20 },
        0x44 => Decoded { instr: Instr::Neg, fetch: Fetch::NoFetch, cycles: 8 },
        0x45 => Decoded { instr: Instr::Retn, fetch: Fetch::NoFetch, cycles: 14 },
        0x46 => Decoded { instr: Instr::Im(0), fetch: Fetch::NoFetch, cycles: 8 },
        0x47 => Decoded { instr: Instr::Ld(Pat8::R(Reg8::I), Pat8::R(Reg8::A)), fetch: Fetch::NoFetch, cycles: 9 },
        0x48 => Decoded { instr: Instr::InC(Reg8::C, Reg8::C), fetch: Fetch::NoFetch, cycles: 12 },
        0x49 => Decoded { instr: Instr::OutC(Reg8::C, Pat8::R(Reg8::C)), fetch: Fetch::NoFetch, cycles: 12 },
        0x4A => Decoded { instr: Instr::Adc16(Reg16::HL, Reg16::BC), fetch: Fetch::NoFetch, cycles: 15 },
        0x4B => Decoded { instr: Instr::Ld16(Pat16::R(Reg16::BC), Pat16::AtNN), fetch: Fetch::NN, cycles: 20 },
        0x4C => Decoded { instr: Instr::Neg, fetch: Fetch::NoFetch, cycles: 8 },
        0x4D => Decoded { instr: Instr::Retn, fetch: Fetch::NoFetch, cycles: 14 },
        0x4E => Decoded { instr: Instr::Im(0), fetch: Fetch::NoFetch, cycles: 8 },
        0x4F => Decoded { instr: Instr::Ld(Pat8::R(Reg8::R), Pat8::R(Reg8::A)), fetch: Fetch::NoFetch, cycles: 9 },
        0x50 => Decoded { instr: Instr::InC(Reg8::D, Reg8::C), fetch: Fetch::NoFetch, cycles: 12 },
        0x51 => Decoded { instr: Instr::OutC(Reg8::C, Pat8::R(Reg8::D)), fetch: Fetch::NoFetch, cycles: 12 },
        0x52 => Decoded { instr: Instr::Sbc16(Reg16::HL, Reg16::DE), fetch: Fetch::NoFetch, cycles: 15 },
        0x53 => Decoded { instr: Instr::Ld16(Pat16::AtNN, Pat16::R(Reg16::DE)), fetch: Fetch::NN, cycles: 20 },
        0x54 => Decoded { instr: Instr::Neg, fetch: Fetch::NoFetch, cycles: 8 },
        0x55 => Decoded { instr: Instr::Retn, fetch: Fetch::NoFetch, cycles: 14 },
        0x56 => Decoded { instr: Instr::Im(1), fetch: Fetch::NoFetch, cycles: 8 },
        0x57 => Decoded { instr: Instr::LdIr(Reg8::A, Reg8::I), fetch: Fetch::NoFetch, cycles: 9 },
        0x58 => Decoded { instr: Instr::InC(Reg8::E, Reg8::C), fetch: Fetch::NoFetch, cycles: 12 },
        0x59 => Decoded { instr: Instr::OutC(Reg8::C, Pat8::R(Reg8::E)), fetch: Fetch::NoFetch, cycles: 12 },
        0x5A => Decoded { instr: Instr::Adc16(Reg16::HL, Reg16::DE), fetch: Fetch::NoFetch, cycles: 15 },
        0x5B => Decoded { instr: Instr::Ld16(Pat16::R(Reg16::DE), Pat16::AtNN), fetch: Fetch::NN, cycles: 20 },
        0x5C => Decoded { instr: Instr::Neg, fetch: Fetch::NoFetch, cycles: 8 },
        0x5D => Decoded { instr: Instr::Retn, fetch: Fetch::NoFetch, cycles: 14 },
        0x5E => Decoded { instr: Instr::Im(2), fetch: Fetch::NoFetch, cycles: 8 },
        0x5F => Decoded { instr: Instr::LdIr(Reg8::A, Reg8::R), fetch: Fetch::NoFetch, cycles: 9 },
        0x60 => Decoded { instr: Instr::InC(Reg8::H, Reg8::C), fetch: Fetch::NoFetch, cycles: 12 },
        0x61 => Decoded { instr: Instr::OutC(Reg8::C, Pat8::R(Reg8::H)), fetch: Fetch::NoFetch, cycles: 12 },
        0x62 => Decoded { instr: Instr::Sbc16(Reg16::HL, Reg16::HL), fetch: Fetch::NoFetch, cycles: 15 },
        0x63 => Decoded { instr: Instr::Ld16(Pat16::AtNN, Pat16::R(Reg16::HL)), fetch: Fetch::NN, cycles: 20 },
        0x64 => Decoded { instr: Instr::Neg, fetch: Fetch::NoFetch, cycles: 8 },
        0x65 => Decoded { instr: Instr::Retn, fetch: Fetch::NoFetch, cycles: 14 },
        0x66 => Decoded { instr: Instr::Im(0), fetch: Fetch::NoFetch, cycles: 8 },
        0x67 => Decoded { instr: Instr::Rxd(false), fetch: Fetch::NoFetch, cycles: 18 },
        0x68 => Decoded { instr: Instr::InC(Reg8::L, Reg8::C), fetch: Fetch::NoFetch, cycles: 12 },
        0x69 => Decoded { instr: Instr::OutC(Reg8::C, Pat8::R(Reg8::L)), fetch: Fetch::NoFetch, cycles: 12 },
        0x6A => Decoded { instr: Instr::Adc16(Reg16::HL, Reg16::HL), fetch: Fetch::NoFetch, cycles: 15 },
        0x6B => Decoded { instr: Instr::Ld16(Pat16::R(Reg16::HL), Pat16::AtNN), fetch: Fetch::NN, cycles: 20 },
        0x6C => Decoded { instr: Instr::Neg, fetch: Fetch::NoFetch, cycles: 8 },
        0x6D => Decoded { instr: Instr::Retn, fetch: Fetch::NoFetch, cycles: 14 },
        0x6E => Decoded { instr: Instr::Im(0), fetch: Fetch::NoFetch, cycles: 8 },
        0x6F => Decoded { instr: Instr::Rxd(true), fetch: Fetch::NoFetch, cycles: 18 },
        0x70 => Decoded { instr: Instr::InF(Reg8::C), fetch: Fetch::NoFetch, cycles: 12 },
        0x71 => Decoded { instr: Instr::OutC(Reg8::C, Pat8::Lit(0)), fetch: Fetch::NoFetch, cycles: 12 },
        0x72 => Decoded { instr: Instr::Sbc16(Reg16::HL, Reg16::SP), fetch: Fetch::NoFetch, cycles: 15 },
        0x73 => Decoded { instr: Instr::Ld16(Pat16::AtNN, Pat16::R(Reg16::SP)), fetch: Fetch::NN, cycles: 20 },
        0x74 => Decoded { instr: Instr::Neg, fetch: Fetch::NoFetch, cycles: 8 },
        0x75 => Decoded { instr: Instr::Retn, fetch: Fetch::NoFetch, cycles: 14 },
        0x76 => Decoded { instr: Instr::Im(1), fetch: Fetch::NoFetch, cycles: 8 },
        0x77 => Decoded { instr: Instr::Nop, fetch: Fetch::NoFetch, cycles: 8 },
        0x78 => Decoded { instr: Instr::InC(Reg8::A, Reg8::C), fetch: Fetch::NoFetch, cycles: 12 },
        0x79 => Decoded { instr: Instr::OutC(Reg8::C, Pat8::R(Reg8::A)), fetch: Fetch::NoFetch, cycles: 12 },
        0x7A => Decoded { instr: Instr::Adc16(Reg16::HL, Reg16::SP), fetch: Fetch::NoFetch, cycles: 15 },
        0x7B => Decoded { instr: Instr::Ld16(Pat16::R(Reg16::SP), Pat16::AtNN), fetch: Fetch::NN, cycles: 20 },
        0x7C => Decoded { instr: Instr::Neg, fetch: Fetch::NoFetch, cycles: 8 },
        0x7D => Decoded { instr: Instr::Retn, fetch: Fetch::NoFetch, cycles: 14 },
        0x7E => Decoded { instr: Instr::Im(2), fetch: Fetch::NoFetch, cycles: 8 },
        0x7F => Decoded { instr: Instr::Nop, fetch: Fetch::NoFetch, cycles: 8 },
        0x80 => Decoded { instr: Instr::Nop, fetch: Fetch::NoFetch, cycles: 8 },
        0x81 => Decoded { instr: Instr::Nop, fetch: Fetch::NoFetch, cycles: 8 },
        0x82 => Decoded { instr: Instr::Nop, fetch: Fetch::NoFetch, cycles: 8 },
        0x83 => Decoded { instr: Instr::Nop, fetch: Fetch::NoFetch, cycles: 8 },
        0x84 => Decoded { instr: Instr::Nop, fetch: Fetch::NoFetch, cycles: 8 },
        0x85 => Decoded { instr: Instr::Nop, fetch: Fetch::NoFetch, cycles: 8 },
        0x86 => Decoded { instr: Instr::Nop, fetch: Fetch::NoFetch, cycles: 8 },
        0x87 => Decoded { instr: Instr::Nop, fetch: Fetch::NoFetch, cycles: 8 },
        0x88 => Decoded { instr: Instr::Nop, fetch: Fetch::NoFetch, cycles: 8 },
        0x89 => Decoded { instr: Instr::Nop, fetch: Fetch::NoFetch, cycles: 8 },
        0x8A => Decoded { instr: Instr::Nop, fetch: Fetch::NoFetch, cycles: 8 },
        0x8B => Decoded { instr: Instr::Nop, fetch: Fetch::NoFetch, cycles: 8 },
        0x8C => Decoded { instr: Instr::Nop, fetch: Fetch::NoFetch, cycles: 8 },
        0x8D => Decoded { instr: Instr::Nop, fetch: Fetch::NoFetch, cycles: 8 },
        0x8E => Decoded { instr: Instr::Nop, fetch: Fetch::NoFetch, cycles: 8 },
        0x8F => Decoded { instr: Instr::Nop, fetch: Fetch::NoFetch, cycles: 8 },
        0x90 => Decoded { instr: Instr::Nop, fetch: Fetch::NoFetch, cycles: 8 },
        0x91 => Decoded { instr: Instr::Nop, fetch: Fetch::NoFetch, cycles: 8 },
        0x92 => Decoded { instr: Instr::Nop, fetch: Fetch::NoFetch, cycles: 8 },
        0x93 => Decoded { instr: Instr::Nop, fetch: Fetch::NoFetch, cycles: 8 },
        0x94 => Decoded { instr: Instr::Nop, fetch: Fetch::NoFetch, cycles: 8 },
        0x95 => Decoded { instr: Instr::Nop, fetch: Fetch::NoFetch, cycles: 8 },
        0x96 => Decoded { instr: Instr::Nop, fetch: Fetch::NoFetch, cycles: 8 },
        0x97 => Decoded { instr: Instr::Nop, fetch: Fetch::NoFetch, cycles: 8 },
        0x98 => Decoded { instr: Instr::Nop, fetch: Fetch::NoFetch, cycles: 8 },
        0x99 => Decoded { instr: Instr::Nop, fetch: Fetch::NoFetch, cycles: 8 },
        0x9A => Decoded { instr: Instr::Nop, fetch: Fetch::NoFetch, cycles: 8 },
        0x9B => Decoded { instr: Instr::Nop, fetch: Fetch::NoFetch, cycles: 8 },
        0x9C => Decoded { instr: Instr::Nop, fetch: Fetch::NoFetch, cycles: 8 },
        0x9D => Decoded { instr: Instr::Nop, fetch: Fetch::NoFetch, cycles: 8 },
        0x9E => Decoded { instr: Instr::Nop, fetch: Fetch::NoFetch, cycles: 8 },
        0x9F => Decoded { instr: Instr::Nop, fetch: Fetch::NoFetch, cycles: 8 },
        0xA0 => Decoded { instr: Instr::Ldid(1), fetch: Fetch::NoFetch, cycles: 16 },
        0xA1 => Decoded { instr: Instr::Cpid(1), fetch: Fetch::NoFetch, cycles: 16 },
        0xA2 => Decoded { instr: Instr::Inid(1), fetch: Fetch::NoFetch, cycles: 16 },
        0xA3 => Decoded { instr: Instr::Outid(1), fetch: Fetch::NoFetch, cycles: 16 },
        0xA4 => Decoded { instr: Instr::Nop, fetch: Fetch::NoFetch, cycles: 8 },
        0xA5 => Decoded { instr: Instr::Nop, fetch: Fetch::NoFetch, cycles: 8 },
        0xA6 => Decoded { instr: Instr::Nop, fetch: Fetch::NoFetch, cycles: 8 },
        0xA7 => Decoded { instr: Instr::Nop, fetch: Fetch::NoFetch, cycles: 8 },
        0xA8 => Decoded { instr: Instr::Ldid(65535), fetch: Fetch::NoFetch, cycles: 16 },
        0xA9 => Decoded { instr: Instr::Cpid(65535), fetch: Fetch::NoFetch, cycles: 16 },
        0xAA => Decoded { instr: Instr::Inid(65535), fetch: Fetch::NoFetch, cycles: 16 },
        0xAB => Decoded { instr: Instr::Outid(65535), fetch: Fetch::NoFetch, cycles: 16 },
        0xAC => Decoded { instr: Instr::Nop, fetch: Fetch::NoFetch, cycles: 8 },
        0xAD => Decoded { instr: Instr::Nop, fetch: Fetch::NoFetch, cycles: 8 },
        0xAE => Decoded { instr: Instr::Nop, fetch: Fetch::NoFetch, cycles: 8 },
        0xAF => Decoded { instr: Instr::Nop, fetch: Fetch::NoFetch, cycles: 8 },
        0xB0 => Decoded { instr: Instr::Ldxr(1), fetch: Fetch::NoFetch, cycles: 0 },
        0xB1 => Decoded { instr: Instr::Cpxr(1), fetch: Fetch::NoFetch, cycles: 0 },
        0xB2 => Decoded { instr: Instr::Inxr(1), fetch: Fetch::NoFetch, cycles: 0 },
        0xB3 => Decoded { instr: Instr::Otxr(1), fetch: Fetch::NoFetch, cycles: 0 },
        0xB4 => Decoded { instr: Instr::Nop, fetch: Fetch::NoFetch, cycles: 8 },
        0xB5 => Decoded { instr: Instr::Nop, fetch: Fetch::NoFetch, cycles: 8 },
        0xB6 => Decoded { instr: Instr::Nop, fetch: Fetch::NoFetch, cycles: 8 },
        0xB7 => Decoded { instr: Instr::Nop, fetch: Fetch::NoFetch, cycles: 8 },
        0xB8 => Decoded { instr: Instr::Ldxr(65535), fetch: Fetch::NoFetch, cycles: 0 },
        0xB9 => Decoded { instr: Instr::Cpxr(65535), fetch: Fetch::NoFetch, cycles: 0 },
        0xBA => Decoded { instr: Instr::Inxr(65535), fetch: Fetch::NoFetch, cycles: 0 },
        0xBB => Decoded { instr: Instr::Otxr(65535), fetch: Fetch::NoFetch, cycles: 0 },
        0xBC => Decoded { instr: Instr::Nop, fetch: Fetch::NoFetch, cycles: 8 },
        0xBD => Decoded { instr: Instr::Nop, fetch: Fetch::NoFetch, cycles: 8 },
        0xBE => Decoded { instr: Instr::Nop, fetch: Fetch::NoFetch, cycles: 8 },
        0xBF => Decoded { instr: Instr::Nop, fetch: Fetch::NoFetch, cycles: 8 },
        0xC0 => Decoded { instr: Instr::Nop, fetch: Fetch::NoFetch, cycles: 8 },
        0xC1 => Decoded { instr: Instr::Nop, fetch: Fetch::NoFetch, cycles: 8 },
        0xC2 => Decoded { instr: Instr::Nop, fetch: Fetch::NoFetch, cycles: 8 },
        0xC3 => Decoded { instr: Instr::Nop, fetch: Fetch::NoFetch, cycles: 8 },
        0xC4 => Decoded { instr: Instr::Nop, fetch: Fetch::NoFetch, cycles: 8 },
        0xC5 => Decoded { instr: Instr::Nop, fetch: Fetch::NoFetch, cycles: 8 },
        0xC6 => Decoded { instr: Instr::Nop, fetch: Fetch::NoFetch, cycles: 8 },
        0xC7 => Decoded { instr: Instr::Nop, fetch: Fetch::NoFetch, cycles: 8 },
        0xC8 => Decoded { instr: Instr::Nop, fetch: Fetch::NoFetch, cycles: 8 },
        0xC9 => Decoded { instr: Instr::Nop, fetch: Fetch::NoFetch, cycles: 8 },
        0xCA => Decoded { instr: Instr::Nop, fetch: Fetch::NoFetch, cycles: 8 },
        0xCB => Decoded { instr: Instr::Nop, fetch: Fetch::NoFetch, cycles: 8 },
        0xCC => Decoded { instr: Instr::Nop, fetch: Fetch::NoFetch, cycles: 8 },
        0xCD => Decoded { instr: Instr::Nop, fetch: Fetch::NoFetch, cycles: 8 },
        0xCE => Decoded { instr: Instr::Nop, fetch: Fetch::NoFetch, cycles: 8 },
        0xCF => Decoded { instr: Instr::Nop, fetch: Fetch::NoFetch, cycles: 8 },
        0xD0 => Decoded { instr: Instr::Nop, fetch: Fetch::NoFetch, cycles: 8 },
        0xD1 => Decoded { instr: Instr::Nop, fetch: Fetch::NoFetch, cycles: 8 },
        0xD2 => Decoded { instr: Instr::Nop, fetch: Fetch::NoFetch, cycles: 8 },
        0xD3 => Decoded { instr: Instr::Nop, fetch: Fetch::NoFetch, cycles: 8 },
        0xD4 => Decoded { instr: Instr::Nop, fetch: Fetch::NoFetch, cycles: 8 },
        0xD5 => Decoded { instr: Instr::Nop, fetch: Fetch::NoFetch, cycles: 8 },
        0xD6 => Decoded { instr: Instr::Nop, fetch: Fetch::NoFetch, cycles: 8 },
        0xD7 => Decoded { instr: Instr::Nop, fetch: Fetch::NoFetch, cycles: 8 },
        0xD8 => Decoded { instr: Instr::Nop, fetch: Fetch::NoFetch, cycles: 8 },
        0xD9 => Decoded { instr: Instr::Nop, fetch: Fetch::NoFetch, cycles: 8 },
        0xDA => Decoded { instr: Instr::Nop, fetch: Fetch::NoFetch, cycles: 8 },
        0xDB => Decoded { instr: Instr::Nop, fetch: Fetch::NoFetch, cycles: 8 },
        0xDC => Decoded { instr: Instr::Nop, fetch: Fetch::NoFetch, cycles: 8 },
        0xDD => Decoded { instr: Instr::Nop, fetch: Fetch::NoFetch, cycles: 8 },
        0xDE => Decoded { instr: Instr::Nop, fetch: Fetch::NoFetch, cycles: 8 },
        0xDF => Decoded { instr: Instr::Nop, fetch: Fetch::NoFetch, cycles: 8 },
        0xE0 => Decoded { instr: Instr::Nop, fetch: Fetch::NoFetch, cycles: 8 },
        0xE1 => Decoded { instr: Instr::Nop, fetch: Fetch::NoFetch, cycles: 8 },
        0xE2 => Decoded { instr: Instr::Nop, fetch: Fetch::NoFetch, cycles: 8 },
        0xE3 => Decoded { instr: Instr::Nop, fetch: Fetch::NoFetch, cycles: 8 },
        0xE4 => Decoded { instr: Instr::Nop, fetch: Fetch::NoFetch, cycles: 8 },
        0xE5 => Decoded { instr: Instr::Nop, fetch: Fetch::NoFetch, cycles: 8 },
        0xE6 => Decoded { instr: Instr::Nop, fetch: Fetch::NoFetch, cycles: 8 },
        0xE7 => Decoded { instr: Instr::Nop, fetch: Fetch::NoFetch, cycles: 8 },
        0xE8 => Decoded { instr: Instr::Nop, fetch: Fetch::NoFetch, cycles: 8 },
        0xE9 => Decoded { instr: Instr::Nop, fetch: Fetch::NoFetch, cycles: 8 },
        0xEA => Decoded { instr: Instr::Nop, fetch: Fetch::NoFetch, cycles: 8 },
        0xEB => Decoded { instr: Instr::Nop, fetch: Fetch::NoFetch, cycles: 8 },
        0xEC => Decoded { instr: Instr::Nop, fetch: Fetch::NoFetch, cycles: 8 },
        0xED => Decoded { instr: Instr::Nop, fetch: Fetch::NoFetch, cycles: 8 },
        0xEE => Decoded { instr: Instr::Nop, fetch: Fetch::NoFetch, cycles: 8 },
        0xEF => Decoded { instr: Instr::Nop, fetch: Fetch::NoFetch, cycles: 8 },
        0xF0 => Decoded { instr: Instr::Nop, fetch: Fetch::NoFetch, cycles: 8 },
        0xF1 => Decoded { instr: Instr::Nop, fetch: Fetch::NoFetch, cycles: 8 },
        0xF2 => Decoded { instr: Instr::Nop, fetch: Fetch::NoFetch, cycles: 8 },
        0xF3 => Decoded { instr: Instr::Nop, fetch: Fetch::NoFetch, cycles: 8 },
        0xF4 => Decoded { instr: Instr::Nop, fetch: Fetch::NoFetch, cycles: 8 },
        0xF5 => Decoded { instr: Instr::Nop, fetch: Fetch::NoFetch, cycles: 8 },
        0xF6 => Decoded { instr: Instr::Nop, fetch: Fetch::NoFetch, cycles: 8 },
        0xF7 => Decoded { instr: Instr::Nop, fetch: Fetch::NoFetch, cycles: 8 },
        0xF8 => Decoded { instr: Instr::Nop, fetch: Fetch::NoFetch, cycles: 8 },
        0xF9 => Decoded { instr: Instr::Nop, fetch: Fetch::NoFetch, cycles: 8 },
        0xFA => Decoded { instr: Instr::Nop, fetch: Fetch::NoFetch, cycles: 8 },
        0xFB => Decoded { instr: Instr::Nop, fetch: Fetch::NoFetch, cycles: 8 },
        0xFC => Decoded { instr: Instr::Nop, fetch: Fetch::NoFetch, cycles: 8 },
        0xFD => Decoded { instr: Instr::Nop, fetch: Fetch::NoFetch, cycles: 8 },
        0xFE => Decoded { instr: Instr::Nop, fetch: Fetch::NoFetch, cycles: 8 },
        0xFF => Decoded { instr: Instr::Nop, fetch: Fetch::NoFetch, cycles: 8 },
    }
}

/// The instruction an opcode after the 0xCB prefix stands for.
pub fn decode_cb(op: u8) -> (d: Decoded)
    ensures
        d == spec_decode_cb(op),
{
    reveal(spec_decode_cb);
    match op {
        0x00 => Decoded { instr: Instr::Rot(Rotation::Rlc, Pat8::R(Reg8::B), None), fetch: Fetch::NoFetch, cycles: 8 },
        0x01 => Decoded { instr: Instr::Rot(Rotation::Rlc, Pat8::R(Reg8::C), None), fetch: Fetch::NoFetch, cycles: 8 },
        0x02 => Decoded { instr: Instr::Rot(Rotation::Rlc, Pat8::R(Reg8::D), None), fetch: Fetch::NoFetch, cycles: 8 },
        0x03 => Decoded { instr: Instr::Rot(Rotation::Rlc, Pat8::R(Reg8::E), None), fetch: Fetch::NoFetch, cycles: 8 },
        0x04 => Decoded { instr: Instr::Rot(Rotation::Rlc, Pat8::R(Reg8::H), None), fetch: Fetch::NoFetch, cycles: 8 },
        0x05 => Decoded { instr: Instr::Rot(Rotation::Rlc, Pat8::R(Reg8::L), None), fetch: Fetch::NoFetch, cycles: 8 },
        0x06 => Decoded { instr: Instr::Rot(Rotation::Rlc, Pat8::At(Reg16::HL), None), fetch: Fetch::NoFetch, cycles: 15 },
        0x07 => Decoded { instr: Instr::Rot(Rotation::Rlc, Pat8::R(Reg8::A), None), fetch: Fetch::NoFetch, cycles: 8 },
        0x08 => Decoded { instr: Instr::Rot(Rotation::Rrc, Pat8::R(Reg8::B), None), fetch: Fetch::NoFetch, cycles: 8 },
        0x09 => Decoded { instr: Instr::Rot(Rotation::Rrc, Pat8::R(Reg8::C), None), fetch: Fetch::NoFetch, cycles: 8 },
        0x0A => Decoded { instr: Instr::Rot(Rotation::Rrc, Pat8::R(Reg8::D), None), fetch: Fetch::NoFetch, cycles: 8 },
        0x0B => Decoded { instr: Instr::Rot(Rotation::Rrc, Pat8::R(Reg8::E), None), fetch: Fetch::NoFetch, cycles: 8 },
        0x0C => Decoded { instr: Instr::Rot(Rotation::Rrc, Pat8::R(Reg8::H), None), fetch: Fetch::NoFetch, cycles: 8 },
        0x0D => Decoded { instr: Instr::Rot(Rotation::Rrc, Pat8::R(Reg8::L), None), fetch: Fetch::NoFetch, cycles: 8 },
        0x0E => Decoded { instr: Instr::Rot(Rotation::Rrc, Pat8::At(Reg16::HL), None), fetch: Fetch::NoFetch, cycles: 15 },
        0x0F => Decoded { instr: Instr::Rot(Rotation::Rrc, Pat8::R(Reg8::A), None), fetch: Fetch::NoFetch, cycles: 8 },
        0x10 => Decoded { instr: Instr::Rot(Rotation::Rl, Pat8::R(Reg8::B), None), fetch: Fetch::NoFetch, cycles: 8 },
        0x11 => Decoded { instr: Instr::Rot(Rotation::Rl, Pat8::R(Reg8::C), None), fetch: Fetch::NoFetch, cycles: 8 },
        0x12 => Decoded { instr: Instr::Rot(Rotation::Rl, Pat8::R(Reg8::D), None), fetch: Fetch::NoFetch, cycles: 8 },
        0x13 => Decoded { instr: Instr::Rot(Rotation::Rl, Pat8::R(Reg8::E), None), fetch: Fetch::NoFetch, cycles: 8 },
        0x14 => Decoded { instr: Instr::Rot(Rotation::Rl, Pat8::R(Reg8::H), None), fetch: Fetch::NoFetch, cycles: 8 },
        0x15 => Decoded { instr: Instr::Rot(Rotation::Rl, Pat8::R(Reg8::L), None), fetch: Fetch::NoFetch, cycles: 8 },
        0x16 => Decoded { instr: Instr::Rot(Rotation::Rl, Pat8::At(Reg16::HL), None), fetch: Fetch::NoFetch, cycles: 15 },
        0x17 => Decoded { instr: Instr::Rot(Rotation::Rl, Pat8::R(Reg8::A), None), fetch: Fetch::NoFetch, cycles: 8 },
        0x18 => Decoded { instr: Instr::Rot(Rotation::Rr, Pat8::R(Reg8::B), None), fetch: Fetch::NoFetch, cycles: 8 },
        0x19 => Decoded { instr: Instr::Rot(Rotation::Rr, Pat8::R(Reg8::C), None), fetch: Fetch::NoFetch, cycles: 8 },
        0x1A => Decoded { instr: Instr::Rot(Rotation::Rr, Pat8::R(Reg8::D), None), fetch: Fetch::NoFetch, cycles: 8 },
        0x1B => Decoded { instr: Instr::Rot(Rotation::Rr, Pat8::R(Reg8::E), None), fetch: Fetch::NoFetch, cycles: 8 },
        0x1C => Decoded { instr: Instr::Rot(Rotation::Rr, Pat8::R(Reg8::H), None), fetch: Fetch::NoFetch, cycles: 8 },
        0x1D => Decoded { instr: Instr::Rot(Rotation::Rr, Pat8::R(Reg8::L), None), fetch: Fetch::NoFetch, cycles: 8 },
        0x1E => Decoded { instr: Instr::Rot(Rotation::Rr, Pat8::At(Reg16::HL), None), fetch: Fetch::NoFetch, cycles: 15 },
        0x1F => Decoded { instr: Instr::Rot(Rotation::Rr, Pat8::R(Reg8::A), None), fetch: Fetch::NoFetch, cycles: 8 },
        0x20 => Decoded { instr: Instr::Rot(Rotation::Sla, Pat8::R(Reg8::B), None), fetch: Fetch::NoFetch, cycles: 8 },
        0x21 => Decoded { instr: Instr::Rot(Rotation::Sla, Pat8::R(Reg8::C), None), fetch: Fetch::NoFetch, cycles: 8 },
        0x22 => Decoded { instr: Instr::Rot(Rotation::Sla, Pat8::R(Reg8::D), None), fetch: Fetch::NoFetch, cycles: 8 },
        0x23 => Decoded { instr: Instr::Rot(Rotation::Sla, Pat8::R(Reg8::E), None), fetch: Fetch::NoFetch, cycles: 8 },
        0x24 => Decoded { instr: Instr::Rot(Rotation::Sla, Pat8::R(Reg8::H), None), fetch: Fetch::NoFetch, cycles: 8 },
        0x25 => Decoded { instr: Instr::Rot(Rotation::Sla, Pat8::R(Reg8::L), None), fetch: Fetch::NoFetch, cycles: 8 },
        0x26 => Decoded { instr: Instr::Rot(Rotation::Sla, Pat8::At(Reg16::HL), None), fetch: Fetch::NoFetch, cycles: 15 },
        0x27 => Decoded { instr: Instr::Rot(Rotation::Sla, Pat8::R(Reg8::A), None), fetch: Fetch::NoFetch, cycles: 8 },
        0x28 => Decoded { instr: Instr::Rot(Rotation::Sra, Pat8::R(Reg8::B), None), fetch: Fetch::NoFetch, cycles: 8 },
        0x29 => Decoded { instr: Instr::Rot(Rotation::Sra, Pat8::R(Reg8::C), None), fetch: Fetch::NoFetch, cycles: 8 },
        0x2A => Decoded { instr: Instr::Rot(Rotation::Sra, Pat8::R(Reg8::D), None), fetch: Fetch::NoFetch, cycles: 8 },
        0x2B => Decoded { instr: Instr::Rot(Rotation::Sra, Pat8::R(Reg8::E), None), fetch: Fetch::NoFetch, cycles: 8 },
        0x2C => Decoded { instr: Instr::Rot(Rotation::Sra, Pat8::R(Reg8::H), None), fetch: Fetch::NoFetch, cycles: 8 },
        0x2D => Decoded { instr: Instr::Rot(Rotation::Sra, Pat8::R(Reg8::L), None), fetch: Fetch::NoFetch, cycles: 8 },
        0x2E => Decoded { instr: Instr::Rot(Rotation::Sra, Pat8::At(Reg16::HL), None), fetch: Fetch::NoFetch, cycles: 15 },
        0x2F => Decoded { instr: Instr::Rot(Rotation::Sra, Pat8::R(Reg8::A), None), fetch: Fetch::NoFetch, cycles: 8 },
        0x30 => Decoded { instr: Instr::Rot(Rotation::Sll, Pat8::R(Reg8::B), None), fetch: Fetch::NoFetch, cycles: 8 },
        0x31 => Decoded { instr: Instr::Rot(Rotation::Sll, Pat8::R(Reg8::C), None), fetch: Fetch::NoFetch, cycles: 8 },
        0x32 => Decoded { instr: Instr::Rot(Rotation::Sll, Pat8::R(Reg8::D), None), fetch: Fetch::NoFetch, cycles: 8 },
        0x33 => Decoded { instr: Instr::Rot(Rotation::Sll, Pat8::R(Reg8::E), None), fetch: Fetch::NoFetch, cycles: 8 },
        0x34 => Decoded { instr: Instr::Rot(Rotation::Sll, Pat8::R(Reg8::H), None), fetch: Fetch::NoFetch, cycles: 8 },
        0x35 => Decoded { instr: Instr::Rot(Rotation::Sll, Pat8::R(Reg8::L), None), fetch: Fetch::NoFetch, cycles: 8 },
        0x36 => Decoded { instr: Instr::Rot(Rotation::Sll, Pat8::At(Reg16::HL), None), fetch: Fetch::NoFetch, cycles: 15 },
        0x37 => Decoded { instr: Instr::Rot(Rotation::Sll, Pat8::R(Reg8::A), None), fetch: Fetch::NoFetch, cycles: 8 },
        0x38 => Decoded { instr: Instr::Rot(Rotation::Srl, Pat8::R(Reg8::B), None), fetch: Fetch::NoFetch, cycles: 8 },
        0x39 => Decoded { instr: Instr::Rot(Rotation::Srl, Pat8::R(Reg8::C), None), fetch: Fetch::NoFetch, cycles: 8 },
        0x3A => Decoded { instr: Instr::Rot(Rotation::Srl, Pat8::R(Reg8::D), None), fetch: Fetch::NoFetch, cycles: 8 },
        0x3B => Decoded { instr: Instr::Rot(Rotation::Srl, Pat8::R(Reg8::E), None), fetch: Fetch::NoFetch, cycles: 8 },
        0x3C => Decoded { instr: Instr::Rot(Rotation::Srl, Pat8::R(Reg8::H), None), fetch: Fetch::NoFetch, cycles: 8 },
        0x3D => Decoded { instr: Instr::Rot(Rotation::Srl, Pat8::R(Reg8::L), None), fetch: Fetch::NoFetch, cycles: 8 },
        0x3E => Decoded { instr: Instr::Rot(Rotation::Srl, Pat8::At(Reg16::HL), None), fetch: Fetch::NoFetch, cycles: 15 },
        0x3F => Decoded { instr: Instr::Rot(Rotation::Srl, Pat8::R(Reg8::A), None), fetch: Fetch::NoFetch, cycles: 8 },
        0x40 => Decoded { instr: Instr::Bit(0, Pat8::R(Reg8::B)), fetch: Fetch::NoFetch, cycles: 8 },
        0x41 => Decoded { instr: Instr::Bit(0, Pat8::R(Reg8::C)), fetch: Fetch::NoFetch, cycles: 8 },
        0x42 => Decoded { instr: Instr::Bit(0, Pat8::R(Reg8::D)), fetch: Fetch::NoFetch, cycles: 8 },
        0x43 => Decoded { instr: Instr::Bit(0, Pat8::R(Reg8::E)), fetch: Fetch::NoFetch, cycles: 8 },
        0x44 => Decoded { instr: Instr::Bit(0, Pat8::R(Reg8::H)), fetch: Fetch::NoFetch, cycles: 8 },
        0x45 => Decoded { instr: Instr::Bit(0, Pat8::R(Reg8::L)), fetch: Fetch::NoFetch, cycles: 8 },
        0x46 => Decoded { instr: Instr::Bit(0, Pat8::At(Reg16::HL)), fetch: Fetch::NoFetch, cycles: 12 },
        0x47 => Decoded { instr: Instr::Bit(0, Pat8::R(Reg8::A)), fetch: Fetch::NoFetch, cycles: 8 },
        0x48 => Decoded { instr: Instr::Bit(1, Pat8::R(Reg8::B)), fetch: Fetch::NoFetch, cycles: 8 },
        0x49 => Decoded { instr: Instr::Bit(1, Pat8::R(Reg8::C)), fetch: Fetch::NoFetch, cycles: 8 },
        0x4A => Decoded { instr: Instr::Bit(1, Pat8::R(Reg8::D)), fetch: Fetch::NoFetch, cycles: 8 },
        0x4B => Decoded { instr: Instr::Bit(1, Pat8::R(Reg8::E)), fetch: Fetch::NoFetch, cycles: 8 },
        0x4C => Decoded { instr: Instr::Bit(1, Pat8::R(Reg8::H)), fetch: Fetch::NoFetch, cycles: 8 },
        0x4D => Decoded { instr: Instr::Bit(1, Pat8::R(Reg8::L)), fetch: Fetch::NoFetch, cycles: 8 },
        0x4E => Decoded { instr: Instr::Bit(1, Pat8::At(Reg16::HL)), fetch: Fetch::NoFetch, cycles: 12 },
        0x4F => Decoded { instr: Instr::Bit(1, Pat8::R(Reg8::A)), fetch: Fetch::NoFetch, cycles: 8 },
        0x50 => Decoded { instr: Instr::Bit(2, Pat8::R(Reg8::B)), fetch: Fetch::NoFetch, cycles: 8 },
        0x51 => Decoded { instr: Instr::Bit(2, Pat8::R(Reg8::C)), fetch: Fetch::NoFetch, cycles: 8 },
        0x52 => Decoded { instr: Instr::Bit(2, Pat8::R(Reg8::D)), fetch: Fetch::NoFetch, cycles: 8 },
        0x53 => Decoded { instr: Instr::Bit(2, Pat8::R(Reg8::E)), fetch: Fetch::NoFetch, cycles: 8 },
        0x54 => Decoded { instr: Instr::Bit(2, Pat8::R(Reg8::H)), fetch: Fetch::NoFetch, cycles: 8 },
        0x55 => Decoded { instr: Instr::Bit(2, Pat8::R(Reg8::L)), fetch: Fetch::NoFetch, cycles: 8 },
        0x56 => Decoded { instr: Instr::Bit(2, Pat8::At(Reg16::HL)), fetch: Fetch::NoFetch, cycles: 12 },
        0x57 => Decoded { instr: Instr::Bit(2, Pat8::R(Reg8::A)), fetch: Fetch::NoFetch, cycles: 8 },
        0x58 => Decoded { instr: Instr::Bit(3, Pat8::R(Reg8::B)), fetch: Fetch::NoFetch, cycles: 8 },
        0x59 => Decoded { instr: Instr::Bit(3, Pat8::R(Reg8::C)), fetch: Fetch::NoFetch, cycles: 8 },
        0x5A => Decoded { instr: Instr::Bit(3, Pat8::R(Reg8::D)), fetch: Fetch::NoFetch, cycles: 8 },
        0x5B => Decoded { instr: Instr::Bit(3, Pat8::R(Reg8::E)), fetch: Fetch::NoFetch, cycles: 8 },
        0x5C => Decoded { instr: Instr::Bit(3, Pat8::R(Reg8::H)), fetch: Fetch::NoFetch, cycles: 8 },
        0x5D => Decoded { instr: Instr::Bit(3, Pat8::R(Reg8::L)), fetch: Fetch::NoFetch, cycles: 8 },
        0x5E => Decoded { instr: Instr::Bit(3, Pat8::At(Reg16::HL)), fetch: Fetch::NoFetch, cycles: 12 },
        0x5F => Decoded { instr: Instr::Bit(3, Pat8::R(Reg8::A)), fetch: Fetch::NoFetch, cycles: 8 },
        0x60 => Decoded { instr: Instr::Bit(4, Pat8::R(Reg8::B)), fetch: Fetch::NoFetch, cycles: 8 },
        0x61 => Decoded { instr: Instr::Bit(4, Pat8::R(Reg8::C)), fetch: Fetch::NoFetch, cycles: 8 },
        0x62 => Decoded { instr: Instr::Bit(4, Pat8::R(Reg8::D)), fetch: Fetch::NoFetch, cycles: 8 },
        0x63 => Decoded { instr: Instr::Bit(4, Pat8::R(Reg8::E)), fetch: Fetch::NoFetch, cycles: 8 },
        0x64 => Decoded { instr: Instr::Bit(4, Pat8::R(Reg8::H)), fetch: Fetch::NoFetch, cycles: 8 },
        0x65 => Decoded { instr: Instr::Bit(4, Pat8::R(Reg8::L)), fetch: Fetch::NoFetch, cycles: 8 },
        0x66 => Decoded { instr: Instr::Bit(4, Pat8::At(Reg16::HL)), fetch: Fetch::NoFetch, cycles: 12 },
        0x67 => Decoded { instr: Instr::Bit(4, Pat8::R(Reg8::A)), fetch: Fetch::NoFetch, cycles: 8 },
        0x68 => Decoded { instr: Instr::Bit(5, Pat8::R(Reg8::B)), fetch: Fetch::NoFetch, cycles: 8 },
        0x69 => Decoded { instr: Instr::Bit(5, Pat8::R(Reg8::C)), fetch: Fetch::NoFetch, cycles: 8 },
        0x6A => Decoded { instr: Instr::Bit(5, Pat8::R(Reg8::D)), fetch: Fetch::NoFetch, cycles: 8 },
        0x6B => Decoded { instr: Instr::Bit(5, Pat8::R(Reg8::E)), fetch: Fetch::NoFetch, cycles: 8 },
        0x6C => Decoded { instr: Instr::Bit(5, Pat8::R(Reg8::H)), fetch: Fetch::NoFetch, cycles: 8 },
        0x6D => Decoded { instr: Instr::Bit(5, Pat8::R(Reg8::L)), fetch: Fetch::NoFetch, cycles: 8 },
        0x6E => Decoded { instr: Instr::Bit(5, Pat8::At(Reg16::HL)), fetch: Fetch::NoFetch, cycles: 12 },
        0x6F => Decoded { instr: Instr::Bit(5, Pat8::R(Reg8::A)), fetch: Fetch::NoFetch, cycles: 8 },
        0x70 => Decoded { instr: Instr::Bit(6, Pat8::R(Reg8::B)), fetch: Fetch::NoFetch, cycles: 8 },
        0x71 => Decoded { instr: Instr::Bit(6, Pat8::R(Reg8::C)), fetch: Fetch::NoFetch, cycles: 8 },
        0x72 => Decoded { instr: Instr::Bit(6, Pat8::R(Reg8::D)), fetch: Fetch::NoFetch, cycles: 8 },
        0x73 => Decoded { instr: Instr::Bit(6, Pat8::R(Reg8::E)), fetch: Fetch::NoFetch, cycles: 8 },
        0x74 => Decoded { instr: Instr::Bit(6, Pat8::R(Reg8::H)), fetch: Fetch::NoFetch, cycles: 8 },
        0x75 => Decoded { instr: Instr::Bit(6, Pat8::R(Reg8::L)), fetch: Fetch::NoFetch, cycles: 8 },
        0x76 => Decoded { instr: Instr::Bit(6, Pat8::At(Reg16::HL)), fetch: Fetch::NoFetch, cycles: 12 },
        0x77 => Decoded { instr: Instr::Bit(6, Pat8::R(Reg8::A)), fetch: Fetch::NoFetch, cycles: 8 },
        0x78 => Decoded { instr: Instr::Bit(7, Pat8::R(Reg8::B)), fetch: Fetch::NoFetch, cycles: 8 },
        0x79 => Decoded { instr: Instr::Bit(7, Pat8::R(Reg8::C)), fetch: Fetch::NoFetch, cycles: 8 },
        0x7A => Decoded { instr: Instr::Bit(7, Pat8::R(Reg8::D)), fetch: Fetch::NoFetch, cycles: 8 },
        0x7B => Decoded { instr: Instr::Bit(7, Pat8::R(Reg8::E)), fetch: Fetch::NoFetch, cycles: 8 },
        0x7C => Decoded { instr: Instr::Bit(7, Pat8::R(Reg8::H)), fetch: Fetch::NoFetch, cycles: 8 },
        0x7D => Decoded { instr: Instr::Bit(7, Pat8::R(Reg8::L)), fetch: Fetch::NoFetch, cycles: 8 },
        0x7E => Decoded { instr: Instr::Bit(7, Pat8::At(Reg16::HL)), fetch: Fetch::NoFetch, cycles: 12 },
        0x7F => Decoded { instr: Instr::Bit(7, Pat8::R(Reg8::A)), fetch: Fetch::NoFetch, cycles: 8 },
        0x80 => Decoded { instr: Instr::SetRes(0, Pat8::R(Reg8::B), false), fetch: Fetch::NoFetch, cycles: 8 },
        0x81 => Decoded { instr: Instr::SetRes(0, Pat8::R(Reg8::C), false), fetch: Fetch::NoFetch, cycles: 8 },
        0x82 => Decoded { instr: Instr::SetRes(0, Pat8::R(Reg8::D), false), fetch: Fetch::NoFetch, cycles: 8 },
        0x83 => Decoded { instr: Instr::SetRes(0, Pat8::R(Reg8::E), false), fetch: Fetch::NoFetch, cycles: 8 },
        0x84 => Decoded { instr: Instr::SetRes(0, Pat8::R(Reg8::H), false), fetch: Fetch::NoFetch, cycles: 8 },
        0x85 => Decoded { instr: Instr::SetRes(0, Pat8::R(Reg8::L), false), fetch: Fetch::NoFetch, cycles: 8 },
        0x86 => Decoded { instr: Instr::SetRes(0, Pat8::At(Reg16::HL), false), fetch: Fetch::NoFetch, cycles: 15 },
        0x87 => Decoded { instr: Instr::SetRes(0, Pat8::R(Reg8::A), false), fetch: Fetch::NoFetch, cycles: 8 },
        0x88 => Decoded { instr: Instr::SetRes(1, Pat8::R(Reg8::B), false), fetch: Fetch::NoFetch, cycles: 8 },
        0x89 => Decoded { instr: Instr::SetRes(1, Pat8::R(Reg8::C), false), fetch: Fetch::NoFetch, cycles: 8 },
        0x8A => Decoded { instr: Instr::SetRes(1, Pat8::R(Reg8::D), false), fetch: Fetch::NoFetch, cycles: 8 },
        0x8B => Decoded { instr: Instr::SetRes(1, Pat8::R(Reg8::E), false), fetch: Fetch::NoFetch, cycles: 8 },
        0x8C => Decoded { instr: Instr::SetRes(1, Pat8::R(Reg8::H), false), fetch: Fetch::NoFetch, cycles: 8 },
        0x8D => Decoded { instr: Instr::SetRes(1, Pat8::R(Reg8::L), false), fetch: Fetch::NoFetch, cycles: 8 },
        0x8E => Decoded { instr: Instr::SetRes(1, Pat8::At(Reg16::HL), false), fetch: Fetch::NoFetch, cycles: 15 },
        0x8F => Decoded { instr: Instr::SetRes(1, Pat8::R(Reg8::A), false), fetch: Fetch::NoFetch, cycles: 8 },
        0x90 => Decoded { instr: Instr::SetRes(2, Pat8::R(Reg8::B), false), fetch: Fetch::NoFetch, cycles: 8 },
        0x91 => Decoded { instr: Instr::SetRes(2, Pat8::R(Reg8::C), false), fetch: Fetch::NoFetch, cycles: 8 },
        0x92 => Decoded { instr: Instr::SetRes(2, Pat8::R(Reg8::D), false), fetch: Fetch::NoFetch, cycles: 8 },
        0x93 => Decoded { instr: Instr::SetRes(2, Pat8::R(Reg8::E), false), fetch: Fetch::NoFetch, cycles: 8 },
        0x94 => Decoded { instr: Instr::SetRes(2, Pat8::R(Reg8::H), false), fetch: Fetch::NoFetch, cycles: 8 },
        0x95 => Decoded { instr: Instr::SetRes(2, Pat8::R(Reg8::L), false), fetch: Fetch::NoFetch, cycles: 8 },
        0x96 => Decoded { instr: Instr::SetRes(2, Pat8::At(Reg16::HL), false), fetch: Fetch::NoFetch, cycles: 15 },
        0x97 => Decoded { instr: Instr::SetRes(2, Pat8::R(Reg8::A), false), fetch: Fetch::NoFetch, cycles: 8 },
        0x98 => Decoded { instr: Instr::SetRes(3, Pat8::R(Reg8::B), false), fetch: Fetch::NoFetch, cycles: 8 },
        0x99 => Decoded { instr: Instr::SetRes(3, Pat8::R(Reg8::C), false), fetch: Fetch::NoFetch, cycles: 8 },
        0x9A => Decoded { instr: Instr::SetRes(3, Pat8::R(Reg8::D), false), fetch: Fetch::NoFetch, cycles: 8 },
        0x9B => Decoded { instr: Instr::SetRes(3, Pat8::R(Reg8::E), false), fetch: Fetch::NoFetch, cycles: 8 },
        0x9C => Decoded { instr: Instr::SetRes(3, Pat8::R(Reg8::H), false), fetch: Fetch::NoFetch, cycles: 8 },
        0x9D => Decoded { instr: Instr::SetRes(3, Pat8::R(Reg8::L), false), fetch: Fetch::NoFetch, cycles: 8 },
        0x9E => Decoded { instr: Instr::SetRes(3, Pat8::At(Reg16::HL), false), fetch: Fetch::NoFetch, cycles: 15 },
        0x9F => Decoded { instr: Instr::SetRes(3, Pat8::R(Reg8::A), false), fetch: Fetch::NoFetch, cycles: 8 },
        0xA0 => Decoded { instr: Instr::SetRes(4, Pat8::R(Reg8::B), false), fetch: Fetch::NoFetch, cycles: 8 },
        0xA1 => Decoded { instr: Instr::SetRes(4, Pat8::R(Reg8::C), false), fetch: Fetch::NoFetch, cycles: 8 },
        0xA2 => Decoded { instr: Instr::SetRes(4, Pat8::R(Reg8::D), false), fetch: Fetch::NoFetch, cycles: 8 },
        0xA3 => Decoded { instr: Instr::SetRes(4, Pat8::R(Reg8::E), false), fetch: Fetch::NoFetch, cycles: 8 },
        0xA4 => Decoded { instr: Instr::SetRes(4, Pat8::R(Reg8::H), false), fetch: Fetch::NoFetch, cycles: 8 },
        0xA5 => Decoded { instr: Instr::SetRes(4, Pat8::R(Reg8::L), false), fetch: Fetch::NoFetch, cycles: 8 },
        0xA6 => Decoded { instr: Instr::SetRes(4, Pat8::At(Reg16::HL), false), fetch: Fetch::NoFetch, cycles: 15 },
        0xA7 => Decoded { instr: Instr::SetRes(4, Pat8::R(Reg8::A), false), fetch: Fetch::NoFetch, cycles: 8 },
        0xA8 => Decoded { instr: Instr::SetRes(5, Pat8::R(Reg8::B), false), fetch: Fetch::NoFetch, cycles: 8 },
        0xA9 => Decoded { instr: Instr::SetRes(5, Pat8::R(Reg8::C), false), fetch: Fetch::NoFetch, cycles: 8 },
        0xAA => Decoded { instr: Instr::SetRes(5, Pat8::R(Reg8::D), false), fetch: Fetch::NoFetch, cycles: 8 },
        0xAB => Decoded { instr: Instr::SetRes(5, Pat8::R(Reg8::E), false), fetch: Fetch::NoFetch, cycles: 8 },
        0xAC => Decoded { instr: Instr::SetRes(5, Pat8::R(Reg8::H), false), fetch: Fetch::NoFetch, cycles: 8 },
        0xAD => Decoded { instr: Instr::SetRes(5, Pat8::R(Reg8::L), false), fetch: Fetch::NoFetch, cycles: 8 },
        0xAE => Decoded { instr: Instr::SetRes(5, Pat8::At(Reg16::HL), false), fetch: Fetch::NoFetch, cycles: 15 },
        0xAF => Decoded { instr: Instr::SetRes(5, Pat8::R(Reg8::A), false), fetch: Fetch::NoFetch, cycles: 8 },
        0xB0 => Decoded { instr: Instr::SetRes(6, Pat8::R(Reg8::B), false), fetch: Fetch::NoFetch, cycles: 8 },
        0xB1 => Decoded { instr: Instr::SetRes(6, Pat8::R(Reg8::C), false), fetch: Fetch::NoFetch, cycles: 8 },
        0xB2 => Decoded { instr: Instr::SetRes(6, Pat8::R(Reg8::D), false), fetch: Fetch::NoFetch, cycles: 8 },
        0xB3 => Decoded { instr: Instr::SetRes(6, Pat8::R(Reg8::E), false), fetch: Fetch::NoFetch, cycles: 8 },
        0xB4 => Decoded { instr: Instr::SetRes(6, Pat8::R(Reg8::H), false), fetch: Fetch::NoFetch, cycles: 8 },
        0xB5 => Decoded { instr: Instr::SetRes(6, Pat8::R(Reg8::L), false), fetch: Fetch::NoFetch, cycles: 8 },
        0xB6 => Decoded { instr: Instr::SetRes(6, Pat8::At(Reg16::HL), false), fetch: Fetch::NoFetch, cycles: 15 },
        0xB7 => Decoded { instr: Instr::SetRes(6, Pat8::R(Reg8::A), false), fetch: Fetch::NoFetch, cycles: 8 },
        0xB8 => Decoded { instr: Instr::SetRes(7, Pat8::R(Reg8::B), false), fetch: Fetch::NoFetch, cycles: 8 },
        0xB9 => Decoded { instr: Instr::SetRes(7, Pat8::R(Reg8::C), false), fetch: Fetch::NoFetch, cycles: 8 },
        0xBA => Decoded { instr: Instr::SetRes(7, Pat8::R(Reg8::D), false), fetch: Fetch::NoFetch, cycles: 8 },
        0xBB => Decoded { instr: Instr::SetRes(7, Pat8::R(Reg8::E), false), fetch: Fetch::NoFetch, cycles: 8 },
        0xBC => Decoded { instr: Instr::SetRes(7, Pat8::R(Reg8::H), false), fetch: Fetch::NoFetch, cycles: 8 },
        0xBD => Decoded { instr: Instr::SetRes(7, Pat8::R(Reg8::L), false), fetch: Fetch::NoFetch, cycles: 8 },
        0xBE => Decoded { instr: Instr::SetRes(7, Pat8::At(Reg16::HL), false), fetch: Fetch::NoFetch, cycles: 15 },
        0xBF => Decoded { instr: Instr::SetRes(7, Pat8::R(Reg8::A), false), fetch: Fetch::NoFetch, cycles: 8 },
        0xC0 => Decoded { instr: Instr::SetRes(0, Pat8::R(Reg8::B), true), fetch: Fetch::NoFetch, cycles: 8 },
        0xC1 => Decoded { instr: Instr::SetRes(0, Pat8::R(Reg8::C), true), fetch: Fetch::NoFetch, cycles: 8 },
        0xC2 => Decoded { instr: Instr::SetRes(0, Pat8::R(Reg8::D), true), fetch: Fetch::NoFetch, cycles: 8 },
        0xC3 => Decoded { instr: Instr::SetRes(0, Pat8::R(Reg8::E), true), fetch: Fetch::NoFetch, cycles: 8 },
        0xC4 => Decoded { instr: Instr::SetRes(0, Pat8::R(Reg8::H), true), fetch: Fetch::NoFetch, cycles: 8 },
        0xC5 => Decoded { instr: Instr::SetRes(0, Pat8::R(Reg8::L), true), fetch: Fetch::NoFetch, cycles: 8 },
        0xC6 => Decoded { instr: Instr::SetRes(0, Pat8::At(Reg16::HL), true), fetch: Fetch::NoFetch, cycles: 15 },
        0xC7 => Decoded { instr: Instr::SetRes(0, Pat8::R(Reg8::A), true), fetch: Fetch::NoFetch, cycles: 8 },
        0xC8 => Decoded { instr: Instr::SetRes(1, Pat8::R(Reg8::B), true), fetch: Fetch::NoFetch, cycles: 8 },
        0xC9 => Decoded { instr: Instr::SetRes(1, Pat8::R(Reg8::C), true), fetch: Fetch::NoFetch, cycles: 8 },
        0xCA => Decoded { instr: Instr::SetRes(1, Pat8::R(Reg8::D), true), fetch: Fetch::NoFetch, cycles: 8 },
        0xCB => Decoded { instr: Instr::SetRes(1, Pat8::R(Reg8::E), true), fetch: Fetch::NoFetch, cycles: 8 },
        0xCC => Decoded { instr: Instr::SetRes(1, Pat8::R(Reg8::H), true), fetch: Fetch::NoFetch, cycles: 8 },
        0xCD => Decoded { instr: Instr::SetRes(1, Pat8::R(Reg8::L), true), fetch: Fetch::NoFetch, cycles: 8 },
        0xCE => Decoded { instr: Instr::SetRes(1, Pat8::At(Reg16::HL), true), fetch: Fetch::NoFetch, cycles: 15 },
        0xCF => Decoded { instr: Instr::SetRes(1, Pat8::R(Reg8::A), true), fetch: Fetch::NoFetch, cycles: 8 },
        0xD0 => Decoded { instr: Instr::SetRes(2, Pat8::R(Reg8::B), true), fetch: Fetch::NoFetch, cycles: 8 },
        0xD1 => Decoded { instr: Instr::SetRes(2, Pat8::R(Reg8::C), true), fetch: Fetch::NoFetch, cycles: 8 },
        0xD2 => Decoded { instr: Instr::SetRes(2, Pat8::R(Reg8::D), true), fetch: Fetch::NoFetch, cycles: 8 },
        0xD3 => Decoded { instr: Instr::SetRes(2, Pat8::R(Reg8::E), true), fetch: Fetch::NoFetch, cycles: 8 },
        0xD4 => Decoded { instr: Instr::SetRes(2, Pat8::R(Reg8::H), true), fetch: Fetch::NoFetch, cycles: 8 },
        0xD5 => Decoded { instr: Instr::SetRes(2, Pat8::R(Reg8::L), true), fetch: Fetch::NoFetch, cycles: 8 },
        0xD6 => Decoded { instr: Instr::SetRes(2, Pat8::At(Reg16::HL), true), fetch: Fetch::NoFetch, cycles: 15 },
        0xD7 => Decoded { instr: Instr::SetRes(2, Pat8::R(Reg8::A), true), fetch: Fetch::NoFetch, cycles: 8 },
        0xD8 => Decoded { instr: Instr::SetRes(3, Pat8::R(Reg8::B), true), fetch: Fetch::NoFetch, cycles: 8 },
        0xD9 => Decoded { instr: Instr::SetRes(3, Pat8::R(Reg8::C), true), fetch: Fetch::NoFetch, cycles: 8 },
        0xDA => Decoded { instr: Instr::SetRes(3, Pat8::R(Reg8::D), true), fetch: Fetch::NoFetch, cycles: 8 },
        0xDB => Decoded { instr: Instr::SetRes(3, Pat8::R(Reg8::E), true), fetch: Fetch::NoFetch, cycles: 8 },
        0xDC => Decoded { instr: Instr::SetRes(3, Pat8::R(Reg8::H), true), fetch: Fetch::NoFetch, cycles: 8 },
        0xDD => Decoded { instr: Instr::SetRes(3, Pat8::R(Reg8::L), true), fetch: Fetch::NoFetch, cycles: 8 },
        0xDE => Decoded { instr: Instr::SetRes(3, Pat8::At(Reg16::HL), true), fetch: Fetch::NoFetch, cycles: 15 },
        0xDF => Decoded { instr: Instr::SetRes(3, Pat8::R(Reg8::A), true), fetch: Fetch::NoFetch, cycles: 8 },
        0xE0 => Decoded { instr: Instr::SetRes(4, Pat8::R(Reg8::B), true), fetch: Fetch::NoFetch, cycles: 8 },
        0xE1 => Decoded { instr: Instr::SetRes(4, Pat8::R(Reg8::C), true), fetch: Fetch::NoFetch, cycles: 8 },
        0xE2 => Decoded { instr: Instr::SetRes(4, Pat8::R(Reg8::D), true), fetch: Fetch::NoFetch, cycles: 8 },
        0xE3 => Decoded { instr: Instr::SetRes(4, Pat8::R(Reg8::E), true), fetch: Fetch::NoFetch, cycles: 8 },
        0xE4 => Decoded { instr: Instr::SetRes(4, Pat8::R(Reg8::H), true), fetch: Fetch::NoFetch, cycles: 8 },
        0xE5 => Decoded { instr: Instr::SetRes(4, Pat8::R(Reg8::L), true), fetch: Fetch::NoFetch, cycles: 8 },
        0xE6 => Decoded { instr: Instr::SetRes(4, Pat8::At(Reg16::HL), true), fetch: Fetch::NoFetch, cycles: 15 },
        0xE7 => Decoded { instr: Instr::SetRes(4, Pat8::R(Reg8::A), true), fetch: Fetch::NoFetch, cycles: 8 },
        0xE8 => Decoded { instr: Instr::SetRes(5, Pat8::R(Reg8::B), true), fetch: Fetch::NoFetch, cycles: 8 },
        0xE9 => Decoded { instr: Instr::SetRes(5, Pat8::R(Reg8::C), true), fetch: Fetch::NoFetch, cycles: 8 },
        0xEA => Decoded { instr: Instr::SetRes(5, Pat8::R(Reg8::D), true), fetch: Fetch::NoFetch, cycles: 8 },
        0xEB => Decoded { instr: Instr::SetRes(5, Pat8::R(Reg8::E), true), fetch: Fetch::NoFetch, cycles: 8 },
        0xEC => Decoded { instr: Instr::SetRes(5, Pat8::R(Reg8::H), true), fetch: Fetch::NoFetch, cycles: 8 },
        0xED => Decoded { instr: Instr::SetRes(5, Pat8::R(Reg8::L), true), fetch: Fetch::NoFetch, cycles: 8 },
        0xEE => Decoded { instr: Instr::SetRes(5, Pat8::At(Reg16::HL), true), fetch: Fetch::NoFetch, cycles: 15 },
        0xEF => Decoded { instr: Instr::SetRes(5, Pat8::R(Reg8::A), true), fetch: Fetch::NoFetch, cycles: 8 },
        0xF0 => Decoded { instr: Instr::SetRes(6, Pat8::R(Reg8::B), true), fetch: Fetch::NoFetch, cycles: 8 },
        0xF1 => Decoded { instr: Instr::SetRes(6, Pat8::R(Reg8::C), true), fetch: Fetch::NoFetch, cycles: 8 },
        0xF2 => Decoded { instr: Instr::SetRes(6, Pat8::R(Reg8::D), true), fetch: Fetch::NoFetch, cycles: 8 },
        0xF3 => Decoded { instr: Instr::SetRes(6, Pat8::R(Reg8::E), true), fetch: Fetch::NoFetch, cycles: 8 },
        0xF4 => Decoded { instr: Instr::SetRes(6, Pat8::R(Reg8::H), true), fetch: Fetch::NoFetch, cycles: 8 },
        0xF5 => Decoded { instr: Instr::SetRes(6, Pat8::R(Reg8::L), true), fetch: Fetch::NoFetch, cycles: 8 },
        0xF6 => Decoded { instr: Instr::SetRes(6, Pat8::At(Reg16::HL), true), fetch: Fetch::NoFetch, cycles: 15 },
        0xF7 => Decoded { instr: Instr::SetRes(6, Pat8::R(Reg8::A), true), fetch: Fetch::NoFetch, cycles: 8 },
        0xF8 => Decoded { instr: Instr::SetRes(7, Pat8::R(Reg8::B), true), fetch: Fetch::NoFetch, cycles: 8 },
        0xF9 => Decoded { instr: Instr::SetRes(7, Pat8::R(Reg8::C), true), fetch: Fetch::NoFetch, cycles: 8 },
        0xFA => Decoded { instr: Instr::SetRes(7, Pat8::R(Reg8::D), true), fetch: Fetch::NoFetch, cycles: 8 },
        0xFB => Decoded { instr: Instr::SetRes(7, Pat8::R(Reg8::E), true), fetch: Fetch::NoFetch, cycles: 8 },
        0xFC => Decoded { instr: Instr::SetRes(7, Pat8::R(Reg8::H), true), fetch: Fetch::NoFetch, cycles: 8 },
        0xFD => Decoded { instr: Instr::SetRes(7, Pat8::R(Reg8::L), true), fetch: Fetch::NoFetch, cycles: 8 },
        0xFE => Decoded { instr: Instr::SetRes(7, Pat8::At(Reg16::HL), true), fetch: Fetch::NoFetch, cycles: 15 },
        0xFF => Decoded { instr: Instr::SetRes(7, Pat8::R(Reg8::A), true), fetch: Fetch::NoFetch, cycles: 8 },
    }
}

/// The instruction an opcode after 0xDD 0xCB and a displacement stands for.
pub fn decode_ddcb(op: u8) -> (d: Decoded)
    ensures
        d == spec_decode_index_cb(op, Reg16::IX),
{
    reveal(spec_decode_index_cb);
    match op {
        0x00 => Decoded { instr: Instr::Rot(Rotation::Rlc, Pat8::Idx(Reg16::IX), Some(Reg8::B)), fetch: Fetch::NoFetch, cycles: 19 },
        0x01 => Decoded { instr: Instr::Rot(Rotation::Rlc, Pat8::Idx(Reg16::IX), Some(Reg8::C)), fetch: Fetch::NoFetch, cycles: 19 },
        0x02 => Decoded { instr: Instr::Rot(Rotation::Rlc, Pat8::Idx(Reg16::IX), Some(Reg8::D)), fetch: Fetch::NoFetch, cycles: 19 },
        0x03 => Decoded { instr: Instr::Rot(Rotation::Rlc, Pat8::Idx(Reg16::IX), Some(Reg8::E)), fetch: Fetch::NoFetch, cycles: 19 },
        0x04 => Decoded { instr: Instr::Rot(Rotation::Rlc, Pat8::Idx(Reg16::IX), Some(Reg8::H)), fetch: Fetch::NoFetch, cycles: 19 },
        0x05 => Decoded { instr: Instr::Rot(Rotation::Rlc, Pat8::Idx(Reg16::IX), Some(Reg8::L)), fetch: Fetch::NoFetch, cycles: 19 },
        0x06 => Decoded { instr: Instr::Rot(Rotation::Rlc, Pat8::Idx(Reg16::IX), None), fetch: Fetch::NoFetch, cycles: 19 },
        0x07 => Decoded { instr: Instr::Rot(Rotation::Rlc, Pat8::Idx(Reg16::IX), Some(Reg8::A)), fetch: Fetch::NoFetch, cycles: 19 },
        0x08 => Decoded { instr: Instr::Rot(Rotation::Rrc, Pat8::Idx(Reg16::IX), Some(Reg8::B)), fetch: Fetch::NoFetch, cycles: 19 },
        0x09 => Decoded { instr: Instr::Rot(Rotation::Rrc, Pat8::Idx(Reg16::IX), Some(Reg8::C)), fetch: Fetch::NoFetch, cycles: 19 },
        0x0A => Decoded { instr: Instr::Rot(Rotation::Rrc, Pat8::Idx(Reg16::IX), Some(Reg8::D)), fetch: Fetch::NoFetch, cycles: 19 },
        0x0B => Decoded { instr: Instr::Rot(Rotation::Rrc, Pat8::Idx(Reg16::IX), Some(Reg8::E)), fetch: Fetch::NoFetch, cycles: 19 },
        0x0C => Decoded { instr: Instr::Rot(Rotation::Rrc, Pat8::Idx(Reg16::IX), Some(Reg8::H)), fetch: Fetch::NoFetch, cycles: 19 },
        0x0D => Decoded { instr: Instr::Rot(Rotation::Rrc, Pat8::Idx(Reg16::IX), Some(Reg8::L)), fetch: Fetch::NoFetch, cycles: 19 },
        0x0E => Decoded { instr: Instr::Rot(Rotation::Rrc, Pat8::Idx(Reg16::IX), None), fetch: Fetch::NoFetch, cycles: 19 },
        0x0F => Decoded { instr: Instr::Rot(Rotation::Rrc, Pat8::Idx(Reg16::IX), Some(Reg8::A)), fetch: Fetch::NoFetch, cycles: 19 },
        0x10 => Decoded { instr: Instr::Rot(Rotation::Rl, Pat8::Idx(Reg16::IX), Some(Reg8::B)), fetch: Fetch::NoFetch, cycles: 19 },
        0x11 => Decoded { instr: Instr::Rot(Rotation::Rl, Pat8::Idx(Reg16::IX), Some(Reg8::C)), fetch: Fetch::NoFetch, cycles: 19 },
        0x12 => Decoded { instr: Instr::Rot(Rotation::Rl, Pat8::Idx(Reg16::IX), Some(Reg8::D)), fetch: Fetch::NoFetch, cycles: 19 },
        0x13 => Decoded { instr: Instr::Rot(Rotation::Rl, Pat8::Idx(Reg16::IX), Some(Reg8::E)), fetch: Fetch::NoFetch, cycles: 19 },
        0x14 => Decoded { instr: Instr::Rot(Rotation::Rl, Pat8::Idx(Reg16::IX), Some(Reg8::H)), fetch: Fetch::NoFetch, cycles: 19 },
        0x15 => Decoded { instr: Instr::Rot(Rotation::Rl, Pat8::Idx(Reg16::IX), Some(Reg8::L)), fetch: Fetch::NoFetch, cycles: 19 },
        0x16 => Decoded { instr: Instr::Rot(Rotation::Rl, Pat8::Idx(Reg16::IX), None), fetch: Fetch::NoFetch, cycles: 19 },
        0x17 => Decoded { instr: Instr::Rot(Rotation::Rl, Pat8::Idx(Reg16::IX), Some(Reg8::A)), fetch: Fetch::NoFetch, cycles: 19 },
        0x18 => Decoded { instr: Instr::Rot(Rotation::Rr, Pat8::Idx(Reg16::IX), Some(Reg8::B)), fetch: Fetch::NoFetch, cycles: 19 },
        0x19 => Decoded { instr: Instr::Rot(Rotation::Rr, Pat8::Idx(Reg16::IX), Some(Reg8::C)), fetch: Fetch::NoFetch, cycles: 19 },
        0x1A => Decoded { instr: Instr::Rot(Rotation::Rr, Pat8::Idx(Reg16::IX), Some(Reg8::D)), fetch: Fetch::NoFetch, cycles: 19 },
        0x1B => Decoded { instr: Instr::Rot(Rotation::Rr, Pat8::Idx(Reg16::IX), Some(Reg8::E)), fetch: Fetch::NoFetch, cycles: 19 },
        0x1C => Decoded { instr: Instr::Rot(Rotation::Rr, Pat8::Idx(Reg16::IX), Some(Reg8::H)), fetch: Fetch::NoFetch, cycles: 19 },
        0x1D => Decoded { instr: Instr::Rot(Rotation::Rr, Pat8::Idx(Reg16::IX), Some(Reg8::L)), fetch: Fetch::NoFetch, cycles: 19 },
        0x1E => Decoded { instr: Instr::Rot(Rotation::Rr, Pat8::Idx(Reg16::IX), None), fetch: Fetch::NoFetch, cycles: 19 },
        0x1F => Decoded { instr: Instr::Rot(Rotation::Rr, Pat8::Idx(Reg16::IX), Some(Reg8::A)), fetch: Fetch::NoFetch, cycles: 19 },
        0x20 => Decoded { instr: Instr::Rot(Rotation::Sla, Pat8::Idx(Reg16::IX), Some(Reg8::B)), fetch: Fetch::NoFetch, cycles: 19 },
        0x21 => Decoded { instr: Instr::Rot(Rotation::Sla, Pat8::Idx(Reg16::IX), Some(Reg8::C)), fetch: Fetch::NoFetch, cycles: 19 },
        0x22 => Decoded { instr: Instr::Rot(Rotation::Sla, Pat8::Idx(Reg16::IX), Some(Reg8::D)), fetch: Fetch::NoFetch, cycles: 19 },
        0x23 => Decoded { instr: Instr::Rot(Rotation::Sla, Pat8::Idx(Reg16::IX), Some(Reg8::E)), fetch: Fetch::NoFetch, cycles: 19 },
        0x24 => Decoded { instr: Instr::Rot(Rotation::Sla, Pat8::Idx(Reg16::IX), Some(Reg8::H)), fetch: Fetch::NoFetch, cycles: 19 },
        0x25 => Decoded { instr: Instr::Rot(Rotation::Sla, Pat8::Idx(Reg16::IX), Some(Reg8::L)), fetch: Fetch::NoFetch, cycles: 19 },
        0x26 => Decoded { instr: Instr::Rot(Rotation::Sla, Pat8::Idx(Reg16::IX), None), fetch: Fetch::NoFetch, cycles: 19 },
        0x27 => Decoded { instr: Instr::Rot(Rotation::Sla, Pat8::Idx(Reg16::IX), Some(Reg8::A)), fetch: Fetch::NoFetch, cycles: 19 },
        0x28 => Decoded { instr: Instr::Rot(Rotation::Sra, Pat8::Idx(Reg16::IX), Some(Reg8::B)), fetch: Fetch::NoFetch, cycles: 19 },
        0x29 => Decoded { instr: Instr::Rot(Rotation::Sra, Pat8::Idx(Reg16::IX), Some(Reg8::C)), fetch: Fetch::NoFetch, cycles: 19 },
        0x2A => Decoded { instr: Instr::Rot(Rotation::Sra, Pat8::Idx(Reg16::IX), Some(Reg8::D)), fetch: Fetch::NoFetch, cycles: 19 },
        0x2B => Decoded { instr: Instr::Rot(Rotation::Sra, Pat8::Idx(Reg16::IX), Some(Reg8::E)), fetch: Fetch::NoFetch, cycles: 19 },
        0x2C => Decoded { instr: Instr::Rot(Rotation::Sra, Pat8::Idx(Reg16::IX), Some(Reg8::H)), fetch: Fetch::NoFetch, cycles: 19 },
        0x2D => Decoded { instr: Instr::Rot(Rotation::Sra, Pat8::Idx(Reg16::IX), Some(Reg8::L)), fetch: Fetch::NoFetch, cycles: 19 },
        0x2E => Decoded { instr: Instr::Rot(Rotation::Sra, Pat8::Idx(Reg16::IX), None), fetch: Fetch::NoFetch, cycles: 19 },
        0x2F => Decoded { instr: Instr::Rot(Rotation::Sra, Pat8::Idx(Reg16::IX), Some(Reg8::A)), fetch: Fetch::NoFetch, cycles: 19 },
        0x30 => Decoded { instr: Instr::Rot(Rotation::Sll, Pat8::Idx(Reg16::IX), Some(Reg8::B)), fetch: Fetch::NoFetch, cycles: 19 },
        0x31 => Decoded { instr: Instr::Rot(Rotation::Sll, Pat8::Idx(Reg16::IX), Some(Reg8::C)), fetch: Fetch::NoFetch, cycles: 19 },
        0x32 => Decoded { instr: Instr::Rot(Rotation::Sll, Pat8::Idx(Reg16::IX), Some(Reg8::D)), fetch: Fetch::NoFetch, cycles: 19 },
        0x33 => Decoded { instr: Instr::Rot(Rotation::Sll, Pat8::Idx(Reg16::IX), Some(Reg8::E)), fetch: Fetch::NoFetch, cycles: 19 },
        0x34 => Decoded { instr: Instr::Rot(Rotation::Sll, Pat8::Idx(Reg16::IX), Some(Reg8::H)), fetch: Fetch::NoFetch, cycles: 19 },
        0x35 => Decoded { instr: Instr::Rot(Rotation::Sll, Pat8::Idx(Reg16::IX), Some(Reg8::L)), fetch: Fetch::NoFetch, cycles: 19 },
        0x36 => Decoded { instr: Instr::Rot(Rotation::Sll, Pat8::Idx(Reg16::IX), None), fetch: Fetch::NoFetch, cycles: 19 },
        0x37 => Decoded { instr: Instr::Rot(Rotation::Sll, Pat8::Idx(Reg16::IX), Some(Reg8::A)), fetch: Fetch::NoFetch, cycles: 19 },
        0x38 => Decoded { instr: Instr::Rot(Rotation::Srl, Pat8::Idx(Reg16::IX), Some(Reg8::B)), fetch: Fetch::NoFetch, cycles: 19 },
        0x39 => Decoded { instr: Instr::Rot(Rotation::Srl, Pat8::Idx(Reg16::IX), Some(Reg8::C)), fetch: Fetch::NoFetch, cycles: 19 },
        0x3A => Decoded { instr: Instr::Rot(Rotation::Srl, Pat8::Idx(Reg16::IX), Some(Reg8::D)), fetch: Fetch::NoFetch, cycles: 19 },
        0x3B => Decoded { instr: Instr::Rot(Rotation::Srl, Pat8::Idx(Reg16::IX), Some(Reg8::E)), fetch: Fetch::NoFetch, cycles: 19 },
        0x3C => Decoded { instr: Instr::Rot(Rotation::Srl, Pat8::Idx(Reg16::IX), Some(Reg8::H)), fetch: Fetch::NoFetch, cycles: 19 },
        0x3D => Decoded { instr: Instr::Rot(Rotation::Srl, Pat8::Idx(Reg16::IX), Some(Reg8::L)), fetch: Fetch::NoFetch, cycles: 19 },
        0x3E => Decoded { instr: Instr::Rot(Rotation::Srl, Pat8::Idx(Reg16::IX), None), fetch: Fetch::NoFetch, cycles: 19 },
        0x3F => Decoded { instr: Instr::Rot(Rotation::Srl, Pat8::Idx(Reg16::IX), Some(Reg8::A)), fetch: Fetch::NoFetch, cycles: 19 },
        0x40 => Decoded { instr: Instr::Bit(0, Pat8::Idx(Reg16::IX)), fetch: Fetch::NoFetch, cycles: 16 },
        0x41 => Decoded { instr: Instr::Bit(0, Pat8::Idx(Reg16::IX)), fetch: Fetch::NoFetch, cycles: 16 },
        0x42 => Decoded { instr: Instr::Bit(0, Pat8::Idx(Reg16::IX)), fetch: Fetch::NoFetch, cycles: 16 },
        0x43 => Decoded { instr: Instr::Bit(0, Pat8::Idx(Reg16::IX)), fetch: Fetch::NoFetch, cycles: 16 },
        0x44 => Decoded { instr: Instr::Bit(0, Pat8::Idx(Reg16::IX)), fetch: Fetch::NoFetch, cycles: 16 },
        0x45 => Decoded { instr: Instr::Bit(0, Pat8::Idx(Reg16::IX)), fetch: Fetch::NoFetch, cycles: 16 },
        0x46 => Decoded { instr: Instr::Bit(0, Pat8::Idx(Reg16::IX)), fetch: Fetch::NoFetch, cycles: 16 },
        0x47 => Decoded { instr: Instr::Bit(0, Pat8::Idx(Reg16::IX)), fetch: Fetch::NoFetch, cycles: 16 },
        0x48 => Decoded { instr: Instr::Bit(1, Pat8::Idx(Reg16::IX)), fetch: Fetch::NoFetch, cycles: 16 },
        0x49 => Decoded { instr: Instr::Bit(1, Pat8::Idx(Reg16::IX)), fetch: Fetch::NoFetch, cycles: 16 },
        0x4A => Decoded { instr: Instr::Bit(1, Pat8::Idx(Reg16::IX)), fetch: Fetch::NoFetch, cycles: 16 },
        0x4B => Decoded { instr: Instr::Bit(1, Pat8::Idx(Reg16::IX)), fetch: Fetch::NoFetch, cycles: 16 },
        0x4C => Decoded { instr: Instr::Bit(1, Pat8::Idx(Reg16::IX)), fetch: Fetch::NoFetch, cycles: 16 },
        0x4D => Decoded { instr: Instr::Bit(1, Pat8::Idx(Reg16::IX)), fetch: Fetch::NoFetch, cycles: 16 },
        0x4E => Decoded { instr: Instr::Bit(1, Pat8::Idx(Reg16::IX)), fetch: Fetch::NoFetch, cycles: 16 },
        0x4F => Decoded { instr: Instr::Bit(1, Pat8::Idx(Reg16::IX)), fetch: Fetch::NoFetch, cycles: 16 },
        0x50 => Decoded { instr: Instr::Bit(2, Pat8::Idx(Reg16::IX)), fetch: Fetch::NoFetch, cycles: 16 },
        0x51 => Decoded { instr: Instr::Bit(2, Pat8::Idx(Reg16::IX)), fetch: Fetch::NoFetch, cycles: 16 },
        0x52 => Decoded { instr: Instr::Bit(2, Pat8::Idx(Reg16::IX)), fetch: Fetch::NoFetch, cycles: 16 },
        0x53 => Decoded { instr: Instr::Bit(2, Pat8::Idx(Reg16::IX)), fetch: Fetch::NoFetch, cycles: 16 },
        0x54 => Decoded { instr: Instr::Bit(2, Pat8::Idx(Reg16::IX)), fetch: Fetch::NoFetch, cycles: 16 },
        0x55 => Decoded { instr: Instr::Bit(2, Pat8::Idx(Reg16::IX)), fetch: Fetch::NoFetch, cycles: 16 },
        0x56 => Decoded { instr: Instr::Bit(2, Pat8::Idx(Reg16::IX)), fetch: Fetch::NoFetch, cycles: 16 },
        0x57 => Decoded { instr: Instr::Bit(2, Pat8::Idx(Reg16::IX)), fetch: Fetch::NoFetch, cycles: 16 },
        0x58 => Decoded { instr: Instr::Bit(3, Pat8::Idx(Reg16::IX)), fetch: Fetch::NoFetch, cycles: 16 },
        0x59 => Decoded { instr: Instr::Bit(3, Pat8::Idx(Reg16::IX)), fetch: Fetch::NoFetch, cycles: 16 },
        0x5A => Decoded { instr: Instr::Bit(3, Pat8::Idx(Reg16::IX)), fetch: Fetch::NoFetch, cycles: 16 },
        0x5B => Decoded { instr: Instr::Bit(3, Pat8::Idx(Reg16::IX)), fetch: Fetch::NoFetch, cycles: 16 },
        0x5C => Decoded { instr: Instr::Bit(3, Pat8::Idx(Reg16::IX)), fetch: Fetch::NoFetch, cycles: 16 },
        0x5D => Decoded { instr: Instr::Bit(3, Pat8::Idx(Reg16::IX)), fetch: Fetch::NoFetch, cycles: 16 },
        0x5E => Decoded { instr: Instr::Bit(3, Pat8::Idx(Reg16::IX)), fetch: Fetch::NoFetch, cycles: 16 },
        0x5F => Decoded { instr: Instr::Bit(3, Pat8::Idx(Reg16::IX)), fetch: Fetch::NoFetch, cycles: 16 },
        0x60 => Decoded { instr: Instr::Bit(4, Pat8::Idx(Reg16::IX)), fetch: Fetch::NoFetch, cycles: 16 },
        0x61 => Decoded { instr: Instr::Bit(4, Pat8::Idx(Reg16::IX)), fetch: Fetch::NoFetch, cycles: 16 },
        0x62 => Decoded { instr: Instr::Bit(4, Pat8::Idx(Reg16::IX)), fetch: Fetch::NoFetch, cycles: 16 },
        0x63 => Decoded { instr: Instr::Bit(4, Pat8::Idx(Reg16::IX)), fetch: Fetch::NoFetch, cycles: 16 },
        0x64 => Decoded { instr: Instr::Bit(4, Pat8::Idx(Reg16::IX)), fetch: Fetch::NoFetch, cycles: 16 },
        0x65 => Decoded { instr: Instr::Bit(4, Pat8::Idx(Reg16::IX)), fetch: Fetch::NoFetch, cycles: 16 },
        0x66 => Decoded { instr: Instr::Bit(4, Pat8::Idx(Reg16::IX)), fetch: Fetch::NoFetch, cycles: 16 },
        0x67 => Decoded { instr: Instr::Bit(4, Pat8::Idx(Reg16::IX)), fetch: Fetch::NoFetch, cycles: 16 },
        0x68 => Decoded { instr: Instr::Bit(5, Pat8::Idx(Reg16::IX)), fetch: Fetch::NoFetch, cycles: 16 },
        0x69 => Decoded { instr: Instr::Bit(5, Pat8::Idx(Reg16::IX)), fetch: Fetch::NoFetch, cycles: 16 },
        0x6A => Decoded { instr: Instr::Bit(5, Pat8::Idx(Reg16::IX)), fetch: Fetch::NoFetch, cycles: 16 },
        0x6B => Decoded { instr: Instr::Bit(5, Pat8::Idx(Reg16::IX)), fetch: Fetch::NoFetch, cycles: 16 },
        0x6C => Decoded { instr: Instr::Bit(5, Pat8::Idx(Reg16::IX)), fetch: Fetch::NoFetch, cycles: 16 },
        0x6D => Decoded { instr: Instr::Bit(5, Pat8::Idx(Reg16::IX)), fetch: Fetch::NoFetch, cycles: 16 },
        0x6E => Decoded { instr: Instr::Bit(5, Pat8::Idx(Reg16::IX)), fetch: Fetch::NoFetch, cycles: 16 },
        0x6F => Decoded { instr: Instr::Bit(5, Pat8::Idx(Reg16::IX)), fetch: Fetch::NoFetch, cycles: 16 },
        0x70 => Decoded { instr: Instr::Bit(6, Pat8::Idx(Reg16::IX)), fetch: Fetch::NoFetch, cycles: 16 },
        0x71 => Decoded { instr: Instr::Bit(6, Pat8::Idx(Reg16::IX)), fetch: Fetch::NoFetch, cycles: 16 },
        0x72 => Decoded { instr: Instr::Bit(6, Pat8::Idx(Reg16::IX)), fetch: Fetch::NoFetch, cycles: 16 },
        0x73 => Decoded { instr: Instr::Bit(6, Pat8::Idx(Reg16::IX)), fetch: Fetch::NoFetch, cycles: 16 },
        0x74 => Decoded { instr: Instr::Bit(6, Pat8::Idx(Reg16::IX)), fetch: Fetch::NoFetch, cycles: 16 },
        0x75 => Decoded { instr: Instr::Bit(6, Pat8::Idx(Reg16::IX)), fetch: Fetch::NoFetch, cycles: 16 },
        0x76 => Decoded { instr: Instr::Bit(6, Pat8::Idx(Reg16::IX)), fetch: Fetch::NoFetch, cycles: 16 },
        0x77 => Decoded { instr: Instr::Bit(6, Pat8::Idx(Reg16::IX)), fetch: Fetch::NoFetch, cycles: 16 },
        0x78 => Decoded { instr: Instr::Bit(7, Pat8::Idx(Reg16::IX)), fetch: Fetch::NoFetch, cycles: 16 },
        0x79 => Decoded { instr: Instr::Bit(7, Pat8::Idx(Reg16::IX)), fetch: Fetch::NoFetch, cycles: 16 },
        0x7A => Decoded { instr: Instr::Bit(7, Pat8::Idx(Reg16::IX)), fetch: Fetch::NoFetch, cycles: 16 },
        0x7B => Decoded { instr: Instr::Bit(7, Pat8::Idx(Reg16::IX)), fetch: Fetch::NoFetch, cycles: 16 },
        0x7C => Decoded { instr: Instr::Bit(7, Pat8::Idx(Reg16::IX)), fetch: Fetch::NoFetch, cycles: 16 },
        0x7D => Decoded { instr: Instr::Bit(7, Pat8::Idx(Reg16::IX)), fetch: Fetch::NoFetch, cycles: 16 },
        0x7E => Decoded { instr: Instr::Bit(7, Pat8::Idx(Reg16::IX)), fetch: Fetch::NoFetch, cycles: 16 },
        0x7F => Decoded { instr: Instr::Bit(7, Pat8::Idx(Reg16::IX)), fetch: Fetch::NoFetch, cycles: 16 },
        0x80 => Decoded { instr: Instr::ResStore(0, Pat8::Idx(Reg16::IX), Reg8::B), fetch: Fetch::NoFetch, cycles: 19 },
        0x81 => Decoded { instr: Instr::ResStore(0, Pat8::Idx(Reg16::IX), Reg8::C), fetch: Fetch::NoFetch, cycles: 19 },
        0x82 => Decoded { instr: Instr::ResStore(0, Pat8::Idx(Reg16::IX), Reg8::D), fetch: Fetch::NoFetch, cycles: 19 },
        0x83 => Decoded { instr: Instr::ResStore(0, Pat8::Idx(Reg16::IX), Reg8::E), fetch: Fetch::NoFetch, cycles: 19 },
        0x84 => Decoded { instr: Instr::ResStore(0, Pat8::Idx(Reg16::IX), Reg8::H), fetch: Fetch::NoFetch, cycles: 19 },
        0x85 => Decoded { instr: Instr::ResStore(0, Pat8::Idx(Reg16::IX), Reg8::L), fetch: Fetch::NoFetch, cycles: 19 },
        0x86 => Decoded { instr: Instr::SetRes(0, Pat8::Idx(Reg16::IX), false), fetch: Fetch::NoFetch, cycles: 19 },
        0x87 => Decoded { instr: Instr::ResStore(0, Pat8::Idx(Reg16::IX), Reg8::A), fetch: Fetch::NoFetch, cycles: 19 },
        0x88 => Decoded { instr: Instr::ResStore(1, Pat8::Idx(Reg16::IX), Reg8::B), fetch: Fetch::NoFetch, cycles: 19 },
        0x89 => Decoded { instr: Instr::ResStore(1, Pat8::Idx(Reg16::IX), Reg8::C), fetch: Fetch::NoFetch, cycles: 19 },
        0x8A => Decoded { instr: Instr::ResStore(1, Pat8::Idx(Reg16::IX), Reg8::D), fetch: Fetch::NoFetch, cycles: 19 },
        0x8B => Decoded { instr: Instr::ResStore(1, Pat8::Idx(Reg16::IX), Reg8::E), fetch: Fetch::NoFetch, cycles: 19 },
        0x8C => Decoded { instr: Instr::ResStore(1, Pat8::Idx(Reg16::IX), Reg8::H), fetch: Fetch::NoFetch, cycles: 19 },
        0x8D => Decoded { instr: Instr::ResStore(1, Pat8::Idx(Reg16::IX), Reg8::L), fetch: Fetch::NoFetch, cycles: 19 },
        0x8E => Decoded { instr: Instr::SetRes(1, Pat8::Idx(Reg16::IX), false), fetch: Fetch::NoFetch, cycles: 19 },
        0x8F => Decoded { instr: Instr::ResStore(1, Pat8::Idx(Reg16::IX), Reg8::A), fetch: Fetch::NoFetch, cycles: 19 },
        0x90 => Decoded { instr: Instr::ResStore(2, Pat8::Idx(Reg16::IX), Reg8::B), fetch: Fetch::NoFetch, cycles: 19 },
        0x91 => Decoded { instr: Instr::ResStore(2, Pat8::Idx(Reg16::IX), Reg8::C), fetch: Fetch::NoFetch, cycles: 19 },
        0x92 => Decoded { instr: Instr::ResStore(2, Pat8::Idx(Reg16::IX), Reg8::D), fetch: Fetch::NoFetch, cycles: 19 },
        0x93 => Decoded { instr: Instr::ResStore(2, Pat8::Idx(Reg16::IX), Reg8::E), fetch: Fetch::NoFetch, cycles: 19 },
        0x94 => Decoded { instr: Instr::ResStore(2, Pat8::Idx(Reg16::IX), Reg8::H), fetch: Fetch::NoFetch, cycles: 19 },
        0x95 => Decoded { instr: Instr::ResStore(2, Pat8::Idx(Reg16::IX), Reg8::L), fetch: Fetch::NoFetch, cycles: 19 },
        0x96 => Decoded { instr: Instr::SetRes(2, Pat8::Idx(Reg16::IX), false), fetch: Fetch::NoFetch, cycles: 19 },
        0x97 => Decoded { instr: Instr::ResStore(2, Pat8::Idx(Reg16::IX), Reg8::A), fetch: Fetch::NoFetch, cycles: 19 },
        0x98 => Decoded { instr: Instr::ResStore(3, Pat8::Idx(Reg16::IX), Reg8::B), fetch: Fetch::NoFetch, cycles: 19 },
        0x99 => Decoded { instr: Instr::ResStore(3, Pat8::Idx(Reg16::IX), Reg8::C), fetch: Fetch::NoFetch, cycles: 19 },
        0x9A => Decoded { instr: Instr::ResStore(3, Pat8::Idx(Reg16::IX), Reg8::D), fetch: Fetch::NoFetch, cycles: 19 },
        0x9B => Decoded { instr: Instr::ResStore(3, Pat8::Idx(Reg16::IX), Reg8::E), fetch: Fetch::NoFetch, cycles: 19 },
        0x9C => Decoded { instr: Instr::ResStore(3, Pat8::Idx(Reg16::IX), Reg8::H), fetch: Fetch::NoFetch, cycles: 19 },
        0x9D => Decoded { instr: Instr::ResStore(3, Pat8::Idx(Reg16::IX), Reg8::L), fetch: Fetch::NoFetch, cycles: 19 },
        0x9E => Decoded { instr: Instr::SetRes(3, Pat8::Idx(Reg16::IX), false), fetch: Fetch::NoFetch, cycles: 19 },
        0x9F => Decoded { instr: Instr::ResStore(3, Pat8::Idx(Reg16::IX), Reg8::A), fetch: Fetch::NoFetch, cycles: 19 },
        0xA0 => Decoded { instr: Instr::ResStore(4, Pat8::Idx(Reg16::IX), Reg8::B), fetch: Fetch::NoFetch, cycles: 19 },
        0xA1 => Decoded { instr: Instr::ResStore(4, Pat8::Idx(Reg16::IX), Reg8::C), fetch: Fetch::NoFetch, cycles: 19 },
        0xA2 => Decoded { instr: Instr::ResStore(4, Pat8::Idx(Reg16::IX), Reg8::D), fetch: Fetch::NoFetch, cycles: 19 },
        0xA3 => Decoded { instr: Instr::ResStore(4, Pat8::Idx(Reg16::IX), Reg8::E), fetch: Fetch::NoFetch, cycles: 19 },
        0xA4 => Decoded { instr: Instr::ResStore(4, Pat8::Idx(Reg16::IX), Reg8::H), fetch: Fetch::NoFetch, cycles: 19 },
        0xA5 => Decoded { instr: Instr::ResStore(4, Pat8::Idx(Reg16::IX), Reg8::L), fetch: Fetch::NoFetch, cycles: 19 },
        0xA6 => Decoded { instr: Instr::SetRes(4, Pat8::Idx(Reg16::IX), false), fetch: Fetch::NoFetch, cycles: 19 },
        0xA7 => Decoded { instr: Instr::ResStore(4, Pat8::Idx(Reg16::IX), Reg8::A), fetch: Fetch::NoFetch, cycles: 19 },
        0xA8 => Decoded { instr: Instr::ResStore(5, Pat8::Idx(Reg16::IX), Reg8::B), fetch: Fetch::NoFetch, cycles: 19 },
        0xA9 => Decoded { instr: Instr::ResStore(5, Pat8::Idx(Reg16::IX), Reg8::C), fetch: Fetch::NoFetch, cycles: 19 },
        0xAA => Decoded { instr: Instr::ResStore(5, Pat8::Idx(Reg16::IX), Reg8::D), fetch: Fetch::NoFetch, cycles: 19 },
        0xAB => Decoded { instr: Instr::ResStore(5, Pat8::Idx(Reg16::IX), Reg8::E), fetch: Fetch::NoFetch, cycles: 19 },
        0xAC => Decoded { instr: Instr::ResStore(5, Pat8::Idx(Reg16::IX), Reg8::H), fetch: Fetch::NoFetch, cycles: 19 },
        0xAD => Decoded { instr: Instr::ResStore(5, Pat8::Idx(Reg16::IX), Reg8::L), fetch: Fetch::NoFetch, cycles: 19 },
        0xAE => Decoded { instr: Instr::SetRes(5, Pat8::Idx(Reg16::IX), false), fetch: Fetch::NoFetch, cycles: 19 },
        0xAF => Decoded { instr: Instr::ResStore(5, Pat8::Idx(Reg16::IX), Reg8::A), fetch: Fetch::NoFetch, cycles: 19 },
        0xB0 => Decoded { instr: Instr::ResStore(6, Pat8::Idx(Reg16::IX), Reg8::B), fetch: Fetch::NoFetch, cycles: 19 },
        0xB1 => Decoded { instr: Instr::ResStore(6, Pat8::Idx(Reg16::IX), Reg8::C), fetch: Fetch::NoFetch, cycles: 19 },
        0xB2 => Decoded { instr: Instr::ResStore(6, Pat8::Idx(Reg16::IX), Reg8::D), fetch: Fetch::NoFetch, cycles: 19 },
        0xB3 => Decoded { instr: Instr::ResStore(6, Pat8::Idx(Reg16::IX), Reg8::E), fetch: Fetch::NoFetch, cycles: 19 },
        0xB4 => Decoded { instr: Instr::ResStore(6, Pat8::Idx(Reg16::IX), Reg8::H), fetch: Fetch::NoFetch, cycles: 19 },
        0xB5 => Decoded { instr: Instr::ResStore(6, Pat8::Idx(Reg16::IX), Reg8::L), fetch: Fetch::NoFetch, cycles: 19 },
        0xB6 => Decoded { instr: Instr::SetRes(6, Pat8::Idx(Reg16::IX), false), fetch: Fetch::NoFetch, cycles: 19 },
        0xB7 => Decoded { instr: Instr::ResStore(6, Pat8::Idx(Reg16::IX), Reg8::A), fetch: Fetch::NoFetch, cycles: 19 },
        0xB8 => Decoded { instr: Instr::ResStore(7, Pat8::Idx(Reg16::IX), Reg8::B), fetch: Fetch::NoFetch, cycles: 19 },
        0xB9 => Decoded { instr: Instr::ResStore(7, Pat8::Idx(Reg16::IX), Reg8::C), fetch: Fetch::NoFetch, cycles: 19 },
        0xBA => Decoded { instr: Instr::ResStore(7, Pat8::Idx(Reg16::IX), Reg8::D), fetch: Fetch::NoFetch, cycles: 19 },
        0xBB => Decoded { instr: Instr::ResStore(7, Pat8::Idx(Reg16::IX), Reg8::E), fetch: Fetch::NoFetch, cycles: 19 },
        0xBC => Decoded { instr: Instr::ResStore(7, Pat8::Idx(Reg16::IX), Reg8::H), fetch: Fetch::NoFetch, cycles: 19 },
        0xBD => Decoded { instr: Instr::ResStore(7, Pat8::Idx(Reg16::IX), Reg8::L), fetch: Fetch::NoFetch, cycles: 19 },
        0xBE => Decoded { instr: Instr::SetRes(7, Pat8::Idx(Reg16::IX), false), fetch: Fetch::NoFetch, cycles: 19 },
        0xBF => Decoded { instr: Instr::ResStore(7, Pat8::Idx(Reg16::IX), Reg8::A), fetch: Fetch::NoFetch, cycles: 19 },
        0xC0 => Decoded { instr: Instr::SetStore(0, Pat8::Idx(Reg16::IX), Reg8::B), fetch: Fetch::NoFetch, cycles: 19 },
        0xC1 => Decoded { instr: Instr::SetStore(0, Pat8::Idx(Reg16::IX), Reg8::C), fetch: Fetch::NoFetch, cycles: 19 },
        0xC2 => Decoded { instr: Instr::SetStore(0, Pat8::Idx(Reg16::IX), Reg8::D), fetch: Fetch::NoFetch, cycles: 19 },
        0xC3 => Decoded { instr: Instr::SetStore(0, Pat8::Idx(Reg16::IX), Reg8::E), fetch: Fetch::NoFetch, cycles: 19 },
        0xC4 => Decoded { instr: Instr::SetStore(0, Pat8::Idx(Reg16::IX), Reg8::H), fetch: Fetch::NoFetch, cycles: 19 },
        0xC5 => Decoded { instr: Instr::SetStore(0, Pat8::Idx(Reg16::IX), Reg8::L), fetch: Fetch::NoFetch, cycles: 19 },
        0xC6 => Decoded { instr: Instr::SetRes(0, Pat8::Idx(Reg16::IX), true), fetch: Fetch::NoFetch, cycles: 19 },
        0xC7 => Decoded { instr: Instr::SetStore(0, Pat8::Idx(Reg16::IX), Reg8::A), fetch: Fetch::NoFetch, cycles: 19 },
        0xC8 => Decoded { instr: Instr::SetStore(1, Pat8::Idx(Reg16::IX), Reg8::B), fetch: Fetch::NoFetch, cycles: 19 },
        0xC9 => Decoded { instr: Instr::SetStore(1, Pat8::Idx(Reg16::IX), Reg8::C), fetch: Fetch::NoFetch, cycles: 19 },
        0xCA => Decoded { instr: Instr::SetStore(1, Pat8::Idx(Reg16::IX), Reg8::D), fetch: Fetch::NoFetch, cycles: 19 },
        0xCB => Decoded { instr: Instr::SetStore(1, Pat8::Idx(Reg16::IX), Reg8::E), fetch: Fetch::NoFetch, cycles: 19 },
        0xCC => Decoded { instr: Instr::SetStore(1, Pat8::Idx(Reg16::IX), Reg8::H), fetch: Fetch::NoFetch, cycles: 19 },
        0xCD => Decoded { instr: Instr::SetStore(1, Pat8::Idx(Reg16::IX), Reg8::L), fetch: Fetch::NoFetch, cycles: 19 },
        0xCE => Decoded { instr: Instr::SetRes(1, Pat8::Idx(Reg16::IX), true), fetch: Fetch::NoFetch, cycles: 19 },
        0xCF => Decoded { instr: Instr::SetStore(1, Pat8::Idx(Reg16::IX), Reg8::A), fetch: Fetch::NoFetch, cycles: 19 },
        0xD0 => Decoded { instr: Instr::SetStore(2, Pat8::Idx(Reg16::IX), Reg8::B), fetch: Fetch::NoFetch, cycles: 19 },
        0xD1 => Decoded { instr: Instr::SetStore(2, Pat8::Idx(Reg16::IX), Reg8::C), fetch: Fetch::NoFetch, cycles: 19 },
        0xD2 => Decoded { instr: Instr::SetStore(2, Pat8::Idx(Reg16::IX), Reg8::D), fetch: Fetch::NoFetch, cycles: 19 },
        0xD3 => Decoded { instr: Instr::SetStore(2, Pat8::Idx(Reg16::IX), Reg8::E), fetch: Fetch::NoFetch, cycles: 19 },
        0xD4 => Decoded { instr: Instr::SetStore(2, Pat8::Idx(Reg16::IX), Reg8::H), fetch: Fetch::NoFetch, cycles: 19 },
        0xD5 => Decoded { instr: Instr::SetStore(2, Pat8::Idx(Reg16::IX), Reg8::L), fetch: Fetch::NoFetch, cycles: 19 },
        0xD6 => Decoded { instr: Instr::SetRes(2, Pat8::Idx(Reg16::IX), true), fetch: Fetch::NoFetch, cycles: 19 },
        0xD7 => Decoded { instr: Instr::SetStore(2, Pat8::Idx(Reg16::IX), Reg8::A), fetch: Fetch::NoFetch, cycles: 19 },
        0xD8 => Decoded { instr: Instr::SetStore(3, Pat8::Idx(Reg16::IX), Reg8::B), fetch: Fetch::NoFetch, cycles: 19 },
        0xD9 => Decoded { instr: Instr::SetStore(3, Pat8::Idx(Reg16::IX), Reg8::C), fetch: Fetch::NoFetch, cycles: 19 },
        0xDA => Decoded { instr: Instr::SetStore(3, Pat8::Idx(Reg16::IX), Reg8::D), fetch: Fetch::NoFetch, cycles: 19 },
        0xDB => Decoded { instr: Instr::SetStore(3, Pat8::Idx(Reg16::IX), Reg8::E), fetch: Fetch::NoFetch, cycles: 19 },
        0xDC => Decoded { instr: Instr::SetStore(3, Pat8::Idx(Reg16::IX), Reg8::H), fetch: Fetch::NoFetch, cycles: 19 },
        0xDD => Decoded { instr: Instr::SetStore(3, Pat8::Idx(Reg16::IX), Reg8::L), fetch: Fetch::NoFetch, cycles: 19 },
        0xDE => Decoded { instr: Instr::SetRes(3, Pat8::Idx(Reg16::IX), true), fetch: Fetch::NoFetch, cycles: 19 },
        0xDF => Decoded { instr: Instr::SetStore(3, Pat8::Idx(Reg16::IX), Reg8::A), fetch: Fetch::NoFetch, cycles: 19 },
        0xE0 => Decoded { instr: Instr::SetStore(4, Pat8::Idx(Reg16::IX), Reg8::B), fetch: Fetch::NoFetch, cycles: 19 },
        0xE1 => Decoded { instr: Instr::SetStore(4, Pat8::Idx(Reg16::IX), Reg8::C), fetch: Fetch::NoFetch, cycles: 19 },
        0xE2 => Decoded { instr: Instr::SetStore(4, Pat8::Idx(Reg16::IX), Reg8::D), fetch: Fetch::NoFetch, cycles: 19 },
        0xE3 => Decoded { instr: Instr::SetStore(4, Pat8::Idx(Reg16::IX), Reg8::E), fetch: Fetch::NoFetch, cycles: 19 },
        0xE4 => Decoded { instr: Instr::SetStore(4, Pat8::Idx(Reg16::IX), Reg8::H), fetch: Fetch::NoFetch, cycles: 19 },
        0xE5 => Decoded { instr: Instr::SetStore(4, Pat8::Idx(Reg16::IX), Reg8::L), fetch: Fetch::NoFetch, cycles: 19 },
        0xE6 => Decoded { instr: Instr::SetRes(4, Pat8::Idx(Reg16::IX), true), fetch: Fetch::NoFetch, cycles: 19 },
        0xE7 => Decoded { instr: Instr::SetStore(4, Pat8::Idx(Reg16::IX), Reg8::A), fetch: Fetch::NoFetch, cycles: 19 },
        0xE8 => Decoded { instr: Instr::SetStore(5, Pat8::Idx(Reg16::IX), Reg8::B), fetch: Fetch::NoFetch, cycles: 19 },
        0xE9 => Decoded { instr: Instr::SetStore(5, Pat8::Idx(Reg16::IX), Reg8::C), fetch: Fetch::NoFetch, cycles: 19 },
        0xEA => Decoded { instr: Instr::SetStore(5, Pat8::Idx(Reg16::IX), Reg8::D), fetch: Fetch::NoFetch, cycles: 19 },
        0xEB => Decoded { instr: Instr::SetStore(5, Pat8::Idx(Reg16::IX), Reg8::E), fetch: Fetch::NoFetch, cycles: 19 },
        0xEC => Decoded { instr: Instr::SetStore(5, Pat8::Idx(Reg16::IX), Reg8::H), fetch: Fetch::NoFetch, cycles: 19 },
        0xED => Decoded { instr: Instr::SetStore(5, Pat8::Idx(Reg16::IX), Reg8::L), fetch: Fetch::NoFetch, cycles: 19 },
        0xEE => Decoded { instr: Instr::SetRes(5, Pat8::Idx(Reg16::IX), true), fetch: Fetch::NoFetch, cycles: 19 },
        0xEF => Decoded { instr: Instr::SetStore(5, Pat8::Idx(Reg16::IX), Reg8::A), fetch: Fetch::NoFetch, cycles: 19 },
        0xF0 => Decoded { instr: Instr::SetStore(6, Pat8::Idx(Reg16::IX), Reg8::B), fetch: Fetch::NoFetch, cycles: 19 },
        0xF1 => Decoded { instr: Instr::SetStore(6, Pat8::Idx(Reg16::IX), Reg8::C), fetch: Fetch::NoFetch, cycles: 19 },
        0xF2 => Decoded { instr: Instr::SetStore(6, Pat8::Idx(Reg16::IX), Reg8::D), fetch: Fetch::NoFetch, cycles: 19 },
        0xF3 => Decoded { instr: Instr::SetStore(6, Pat8::Idx(Reg16::IX), Reg8::E), fetch: Fetch::NoFetch, cycles: 19 },
        0xF4 => Decoded { instr: Instr::SetStore(6, Pat8::Idx(Reg16::IX), Reg8::H), fetch: Fetch::NoFetch, cycles: 19 },
        0xF5 => Decoded { instr: Instr::SetStore(6, Pat8::Idx(Reg16::IX), Reg8::L), fetch: Fetch::NoFetch, cycles: 19 },
        0xF6 => Decoded { instr: Instr::SetRes(6, Pat8::Idx(Reg16::IX), true), fetch: Fetch::NoFetch, cycles: 19 },
        0xF7 => Decoded { instr: Instr::SetStore(6, Pat8::Idx(Reg16::IX), Reg8::A), fetch: Fetch::NoFetch, cycles: 19 },
        0xF8 => Decoded { instr: Instr::SetStore(7, Pat8::Idx(Reg16::IX), Reg8::B), fetch: Fetch::NoFetch, cycles: 19 },
        0xF9 => Decoded { instr: Instr::SetStore(7, Pat8::Idx(Reg16::IX), Reg8::C), fetch: Fetch::NoFetch, cycles: 19 },
        0xFA => Decoded { instr: Instr::SetStore(7, Pat8::Idx(Reg16::IX), Reg8::D), fetch: Fetch::NoFetch, cycles: 19 },
        0xFB => Decoded { instr: Instr::SetStore(7, Pat8::Idx(Reg16::IX), Reg8::E), fetch: Fetch::NoFetch, cycles: 19 },
        0xFC => Decoded { instr: Instr::SetStore(7, Pat8::Idx(Reg16::IX), Reg8::H), fetch: Fetch::NoFetch, cycles: 19 },
        0xFD => Decoded { instr: Instr::SetStore(7, Pat8::Idx(Reg16::IX), Reg8::L), fetch: Fetch::NoFetch, cycles: 19 },
        0xFE => Decoded { instr: Instr::SetRes(7, Pat8::Idx(Reg16::IX), true), fetch: Fetch::NoFetch, cycles: 19 },
        0xFF => Decoded { instr: Instr::SetStore(7, Pat8::Idx(Reg16::IX), Reg8::A), fetch: Fetch::NoFetch, cycles: 19 },
    }
}

/// The instruction an opcode after 0xFD 0xCB and a displacement stands for.
pub fn decode_fdcb(op: u8) -> (d: Decoded)
    ensures
        d == spec_decode_index_cb(op, Reg16::IY),
{
    reveal(spec_decode_index_cb);
    match op {
        0x00 => Decoded { instr: Instr::Rot(Rotation::Rlc, Pat8::Idx(Reg16::IY), Some(Reg8::B)), fetch: Fetch::NoFetch, cycles: 19 },
        0x01 => Decoded { instr: Instr::Rot(Rotation::Rlc, Pat8::Idx(Reg16::IY), Some(Reg8::C)), fetch: Fetch::NoFetch, cycles: 19 },
        0x02 => Decoded { instr: Instr::Rot(Rotation::Rlc, Pat8::Idx(Reg16::IY), Some(Reg8::D)), fetch: Fetch::NoFetch, cycles: 19 },
        0x03 => Decoded { instr: Instr::Rot(Rotation::Rlc, Pat8::Idx(Reg16::IY), Some(Reg8::E)), fetch: Fetch::NoFetch, cycles: 19 },
        0x04 => Decoded { instr: Instr::Rot(Rotation::Rlc, Pat8::Idx(Reg16::IY), Some(Reg8::H)), fetch: Fetch::NoFetch, cycles: 19 },
        0x05 => Decoded { instr: Instr::Rot(Rotation::Rlc, Pat8::Idx(Reg16::IY), Some(Reg8::L)), fetch: Fetch::NoFetch, cycles: 19 },
        0x06 => Decoded { instr: Instr::Rot(Rotation::Rlc, Pat8::Idx(Reg16::IY), None), fetch: Fetch::NoFetch, cycles: 19 },
        0x07 => Decoded { instr: Instr::Rot(Rotation::Rlc, Pat8::Idx(Reg16::IY), Some(Reg8::A)), fetch: Fetch::NoFetch, cycles: 19 },
        0x08 => Decoded { instr: Instr::Rot(Rotation::Rrc, Pat8::Idx(Reg16::IY), Some(Reg8::B)), fetch: Fetch::NoFetch, cycles: 19 },
        0x09 => Decoded { instr: Instr::Rot(Rotation::Rrc, Pat8::Idx(Reg16::IY), Some(Reg8::C)), fetch: Fetch::NoFetch, cycles: 19 },
        0x0A => Decoded { instr: Instr::Rot(Rotation::Rrc, Pat8::Idx(Reg16::IY), Some(Reg8::D)), fetch: Fetch::NoFetch, cycles: 19 },
        0x0B => Decoded { instr: Instr::Rot(Rotation::Rrc, Pat8::Idx(Reg16::IY), Some(Reg8::E)), fetch: Fetch::NoFetch, cycles: 19 },
        0x0C => Decoded { instr: Instr::Rot(Rotation::Rrc, Pat8::Idx(Reg16::IY), Some(Reg8::H)), fetch: Fetch::NoFetch, cycles: 19 },
        0x0D => Decoded { instr: Instr::Rot(Rotation::Rrc, Pat8::Idx(Reg16::IY), Some(Reg8::L)), fetch: Fetch::NoFetch, cycles: 19 },
        0x0E => Decoded { instr: Instr::Rot(Rotation::Rrc, Pat8::Idx(Reg16::IY), None), fetch: Fetch::NoFetch, cycles: 19 },
        0x0F => Decoded { instr: Instr::Rot(Rotation::Rrc, Pat8::Idx(Reg16::IY), Some(Reg8::A)), fetch: Fetch::NoFetch, cycles: 19 },
        0x10 => Decoded { instr: Instr::Rot(Rotation::Rl, Pat8::Idx(Reg16::IY), Some(Reg8::B)), fetch: Fetch::NoFetch, cycles: 19 },
        0x11 => Decoded { instr: Instr::Rot(Rotation::Rl, Pat8::Idx(Reg16::IY), Some(Reg8::C)), fetch: Fetch::NoFetch, cycles: 19 },
        0x12 => Decoded { instr: Instr::Rot(Rotation::Rl, Pat8::Idx(Reg16::IY), Some(Reg8::D)), fetch: Fetch::NoFetch, cycles: 19 },
        0x13 => Decoded { instr: Instr::Rot(Rotation::Rl, Pat8::Idx(Reg16::IY), Some(Reg8::E)), fetch: Fetch::NoFetch, cycles: 19 },
        0x14 => Decoded { instr: Instr::Rot(Rotation::Rl, Pat8::Idx(Reg16::IY), Some(Reg8::H)), fetch: Fetch::NoFetch, cycles: 19 },
        0x15 => Decoded { instr: Instr::Rot(Rotation::Rl, Pat8::Idx(Reg16::IY), Some(Reg8::L)), fetch: Fetch::NoFetch, cycles: 19 },
        0x16 => Decoded { instr: Instr::Rot(Rotation::Rl, Pat8::Idx(Reg16::IY), None), fetch: Fetch::NoFetch, cycles: 19 },
        0x17 => Decoded { instr: Instr::Rot(Rotation::Rl, Pat8::Idx(Reg16::IY), Some(Reg8::A)), fetch: Fetch::NoFetch, cycles: 19 },
        0x18 => Decoded { instr: Instr::Rot(Rotation::Rr, Pat8::Idx(Reg16::IY), Some(Reg8::B)), fetch: Fetch::NoFetch, cycles: 19 },
        0x19 => Decoded { instr: Instr::Rot(Rotation::Rr, Pat8::Idx(Reg16::IY), Some(Reg8::C)), fetch: Fetch::NoFetch, cycles: 19 },
        0x1A => Decoded { instr: Instr::Rot(Rotation::Rr, Pat8::Idx(Reg16::IY), Some(Reg8::D)), fetch: Fetch::NoFetch, cycles: 19 },
        0x1B => Decoded { instr: Instr::Rot(Rotation::Rr, Pat8::Idx(Reg16::IY), Some(Reg8::E)), fetch: Fetch::NoFetch, cycles: 19 },
        0x1C => Decoded { instr: Instr::Rot(Rotation::Rr, Pat8::Idx(Reg16::IY), Some(Reg8::H)), fetch: Fetch::NoFetch, cycles: 19 },
        0x1D => Decoded { instr: Instr::Rot(Rotation::Rr, Pat8::Idx(Reg16::IY), Some(Reg8::L)), fetch: Fetch::NoFetch, cycles: 19 },
        0x1E => Decoded { instr: Instr::Rot(Rotation::Rr, Pat8::Idx(Reg16::IY), None), fetch: Fetch::NoFetch, cycles: 19 },
        0x1F => Decoded { instr: Instr::Rot(Rotation::Rr, Pat8::Idx(Reg16::IY), Some(Reg8::A)), fetch: Fetch::NoFetch, cycles: 19 },
        0x20 => Decoded { instr: Instr::Rot(Rotation::Sla, Pat8::Idx(Reg16::IY), Some(Reg8::B)), fetch: Fetch::NoFetch, cycles: 19 },
        0x21 => Decoded { instr: Instr::Rot(Rotation::Sla, Pat8::Idx(Reg16::IY), Some(Reg8::C)), fetch: Fetch::NoFetch, cycles: 19 },
        0x22 => Decoded { instr: Instr::Rot(Rotation::Sla, Pat8::Idx(Reg16::IY), Some(Reg8::D)), fetch: Fetch::NoFetch, cycles: 19 },
        0x23 => Decoded { instr: Instr::Rot(Rotation::Sla, Pat8::Idx(Reg16::IY), Some(Reg8::E)), fetch: Fetch::NoFetch, cycles: 19 },
        0x24 => Decoded { instr: Instr::Rot(Rotation::Sla, Pat8::Idx(Reg16::IY), Some(Reg8::H)), fetch: Fetch::NoFetch, cycles: 19 },
        0x25 => Decoded { instr: Instr::Rot(Rotation::Sla, Pat8::Idx(Reg16::IY), Some(Reg8::L)), fetch: Fetch::NoFetch, cycles: 19 },
        0x26 => Decoded { instr: Instr::Rot(Rotation::Sla, Pat8::Idx(Reg16::IY), None), fetch: Fetch::NoFetch, cycles: 19 },
        0x27 => Decoded { instr: Instr::Rot(Rotation::Sla, Pat8::Idx(Reg16::IY), Some(Reg8::A)), fetch: Fetch::NoFetch, cycles: 19 },
        0x28 => Decoded { instr: Instr::Rot(Rotation::Sra, Pat8::Idx(Reg16::IY), Some(Reg8::B)), fetch: Fetch::NoFetch, cycles: 19 },
        0x29 => Decoded { instr: Instr::Rot(Rotation::Sra, Pat8::Idx(Reg16::IY), Some(Reg8::C)), fetch: Fetch::NoFetch, cycles: 19 },
        0x2A => Decoded { instr: Instr::Rot(Rotation::Sra, Pat8::Idx(Reg16::IY), Some(Reg8::D)), fetch: Fetch::NoFetch, cycles: 19 },
        0x2B => Decoded { instr: Instr::Rot(Rotation::Sra, Pat8::Idx(Reg16::IY), Some(Reg8::E)), fetch: Fetch::NoFetch, cycles: 19 },
        0x2C => Decoded { instr: Instr::Rot(Rotation::Sra, Pat8::Idx(Reg16::IY), Some(Reg8::H)), fetch: Fetch::NoFetch, cycles: 19 },
        0x2D => Decoded { instr: Instr::Rot(Rotation::Sra, Pat8::Idx(Reg16::IY), Some(Reg8::L)), fetch: Fetch::NoFetch, cycles: 19 },
        0x2E => Decoded { instr: Instr::Rot(Rotation::Sra, Pat8::Idx(Reg16::IY), None), fetch: Fetch::NoFetch, cycles: 19 },
        0x2F => Decoded { instr: Instr::Rot(Rotation::Sra, Pat8::Idx(Reg16::IY), Some(Reg8::A)), fetch: Fetch::NoFetch, cycles: 19 },
        0x30 => Decoded { instr: Instr::Rot(Rotation::Sll, Pat8::Idx(Reg16::IY), Some(Reg8::B)), fetch: Fetch::NoFetch, cycles: 19 },
        0x31 => Decoded { instr: Instr::Rot(Rotation::Sll, Pat8::Idx(Reg16::IY), Some(Reg8::C)), fetch: Fetch::NoFetch, cycles: 19 },
        0x32 => Decoded { instr: Instr::Rot(Rotation::Sll, Pat8::Idx(Reg16::IY), Some(Reg8::D)), fetch: Fetch::NoFetch, cycles: 19 },
        0x33 => Decoded { instr: Instr::Rot(Rotation::Sll, Pat8::Idx(Reg16::IY), Some(Reg8::E)), fetch: Fetch::NoFetch, cycles: 19 },
        0x34 => Decoded { instr: Instr::Rot(Rotation::Sll, Pat8::Idx(Reg16::IY), Some(Reg8::H)), fetch: Fetch::NoFetch, cycles: 19 },
        0x35 => Decoded { instr: Instr::Rot(Rotation::Sll, Pat8::Idx(Reg16::IY), Some(Reg8::L)), fetch: Fetch::NoFetch, cycles: 19 },
        0x36 => Decoded { instr: Instr::Rot(Rotation::Sll, Pat8::Idx(Reg16::IY), None), fetch: Fetch::NoFetch, cycles: 19 },
        0x37 => Decoded { instr: Instr::Rot(Rotation::Sll, Pat8::Idx(Reg16::IY), Some(Reg8::A)), fetch: Fetch::NoFetch, cycles: 19 },
        0x38 => Decoded { instr: Instr::Rot(Rotation::Srl, Pat8::Idx(Reg16::IY), Some(Reg8::B)), fetch: Fetch::NoFetch, cycles: 19 },
        0x39 => Decoded { instr: Instr::Rot(Rotation::Srl, Pat8::Idx(Reg16::IY), Some(Reg8::C)), fetch: Fetch::NoFetch, cycles: 19 },
        0x3A => Decoded { instr: Instr::Rot(Rotation::Srl, Pat8::Idx(Reg16::IY), Some(Reg8::D)), fetch: Fetch::NoFetch, cycles: 19 },
        0x3B => Decoded { instr: Instr::Rot(Rotation::Srl, Pat8::Idx(Reg16::IY), Some(Reg8::E)), fetch: Fetch::NoFetch, cycles: 19 },
        0x3C => Decoded { instr: Instr::Rot(Rotation::Srl, Pat8::Idx(Reg16::IY), Some(Reg8::H)), fetch: Fetch::NoFetch, cycles: 19 },
        0x3D => Decoded { instr: Instr::Rot(Rotation::Srl, Pat8::Idx(Reg16::IY), Some(Reg8::L)), fetch: Fetch::NoFetch, cycles: 19 },
        0x3E => Decoded { instr: Instr::Rot(Rotation::Srl, Pat8::Idx(Reg16::IY), None), fetch: Fetch::NoFetch, cycles: 19 },
        0x3F => Decoded { instr: Instr::Rot(Rotation::Srl, Pat8::Idx(Reg16::IY), Some(Reg8::A)), fetch: Fetch::NoFetch, cycles: 19 },
        0x40 => Decoded { instr: Instr::Bit(0, Pat8::Idx(Reg16::IY)), fetch: Fetch::NoFetch, cycles: 16 },
        0x41 => Decoded { instr: Instr::Bit(0, Pat8::Idx(Reg16::IY)), fetch: Fetch::NoFetch, cycles: 16 },
        0x42 => Decoded { instr: Instr::Bit(0, Pat8::Idx(Reg16::IY)), fetch: Fetch::NoFetch, cycles: 16 },
        0x43 => Decoded { instr: Instr::Bit(0, Pat8::Idx(Reg16::IY)), fetch: Fetch::NoFetch, cycles: 16 },
        0x44 => Decoded { instr: Instr::Bit(0, Pat8::Idx(Reg16::IY)), fetch: Fetch::NoFetch, cycles: 16 },
        0x45 => Decoded { instr: Instr::Bit(0, Pat8::Idx(Reg16::IY)), fetch: Fetch::NoFetch, cycles: 16 },
        0x46 => Decoded { instr: Instr::Bit(0, Pat8::Idx(Reg16::IY)), fetch: Fetch::NoFetch, cycles: 16 },
        0x47 => Decoded { instr: Instr::Bit(0, Pat8::Idx(Reg16::IY)), fetch: Fetch::NoFetch, cycles: 16 },
        0x48 => Decoded { instr: Instr::Bit(1, Pat8::Idx(Reg16::IY)), fetch: Fetch::NoFetch, cycles: 16 },
        0x49 => Decoded { instr: Instr::Bit(1, Pat8::Idx(Reg16::IY)), fetch: Fetch::NoFetch, cycles: 16 },
        0x4A => Decoded { instr: Instr::Bit(1, Pat8::Idx(Reg16::IY)), fetch: Fetch::NoFetch, cycles: 16 },
        0x4B => Decoded { instr: Instr::Bit(1, Pat8::Idx(Reg16::IY)), fetch: Fetch::NoFetch, cycles: 16 },
        0x4C => Decoded { instr: Instr::Bit(1, Pat8::Idx(Reg16::IY)), fetch: Fetch::NoFetch, cycles: 16 },
        0x4D => Decoded { instr: Instr::Bit(1, Pat8::Idx(Reg16::IY)), fetch: Fetch::NoFetch, cycles: 16 },
        0x4E => Decoded { instr: Instr::Bit(1, Pat8::Idx(Reg16::IY)), fetch: Fetch::NoFetch, cycles: 16 },
        0x4F => Decoded { instr: Instr::Bit(1, Pat8::Idx(Reg16::IY)), fetch: Fetch::NoFetch, cycles: 16 },
        0x50 => Decoded { instr: Instr::Bit(2, Pat8::Idx(Reg16::IY)), fetch: Fetch::NoFetch, cycles: 16 },
        0x51 => Decoded { instr: Instr::Bit(2, Pat8::Idx(Reg16::IY)), fetch: Fetch::NoFetch, cycles: 16 },
        0x52 => Decoded { instr: Instr::Bit(2, Pat8::Idx(Reg16::IY)), fetch: Fetch::NoFetch, cycles: 16 },
        0x53 => Decoded { instr: Instr::Bit(2, Pat8::Idx(Reg16::IY)), fetch: Fetch::NoFetch, cycles: 16 },
        0x54 => Decoded { instr: Instr::Bit(2, Pat8::Idx(Reg16::IY)), fetch: Fetch::NoFetch, cycles: 16 },
        0x55 => Decoded { instr: Instr::Bit(2, Pat8::Idx(Reg16::IY)), fetch: Fetch::NoFetch, cycles: 16 },
        0x56 => Decoded { instr: Instr::Bit(2, Pat8::Idx(Reg16::IY)), fetch: Fetch::NoFetch, cycles: 16 },
        0x57 => Decoded { instr: Instr::Bit(2, Pat8::Idx(Reg16::IY)), fetch: Fetch::NoFetch, cycles: 16 },
        0x58 => Decoded { instr: Instr::Bit(3, Pat8::Idx(Reg16::IY)), fetch: Fetch::NoFetch, cycles: 16 },
        0x59 => Decoded { instr: Instr::Bit(3, Pat8::Idx(Reg16::IY)), fetch: Fetch::NoFetch, cycles: 16 },
        0x5A => Decoded { instr: Instr::Bit(3, Pat8::Idx(Reg16::IY)), fetch: Fetch::NoFetch, cycles: 16 },
        0x5B => Decoded { instr: Instr::Bit(3, Pat8::Idx(Reg16::IY)), fetch: Fetch::NoFetch, cycles: 16 },
        0x5C => Decoded { instr: Instr::Bit(3, Pat8::Idx(Reg16::IY)), fetch: Fetch::NoFetch, cycles: 16 },
        0x5D => Decoded { instr: Instr::Bit(3, Pat8::Idx(Reg16::IY)), fetch: Fetch::NoFetch, cycles: 16 },
        0x5E => Decoded { instr: Instr::Bit(3, Pat8::Idx(Reg16::IY)), fetch: Fetch::NoFetch, cycles: 16 },
        0x5F => Decoded { instr: Instr::Bit(3, Pat8::Idx(Reg16::IY)), fetch: Fetch::NoFetch, cycles: 16 },
        0x60 => Decoded { instr: Instr::Bit(4, Pat8::Idx(Reg16::IY)), fetch: Fetch::NoFetch, cycles: 16 },
        0x61 => Decoded { instr: Instr::Bit(4, Pat8::Idx(Reg16::IY)), fetch: Fetch::NoFetch, cycles: 16 },
        0x62 => Decoded { instr: Instr::Bit(4, Pat8::Idx(Reg16::IY)), fetch: Fetch::NoFetch, cycles: 16 },
        0x63 => Decoded { instr: Instr::Bit(4, Pat8::Idx(Reg16::IY)), fetch: Fetch::NoFetch, cycles: 16 },
        0x64 => Decoded { instr: Instr::Bit(4, Pat8::Idx(Reg16::IY)), fetch: Fetch::NoFetch, cycles: 16 },
        0x65 => Decoded { instr: Instr::Bit(4, Pat8::Idx(Reg16::IY)), fetch: Fetch::NoFetch, cycles: 16 },
        0x66 => Decoded { instr: Instr::Bit(4, Pat8::Idx(Reg16::IY)), fetch: Fetch::NoFetch, cycles: 16 },
        0x67 => Decoded { instr: Instr::Bit(4, Pat8::Idx(Reg16::IY)), fetch: Fetch::NoFetch, cycles: 16 },
        0x68 => Decoded { instr: Instr::Bit(5, Pat8::Idx(Reg16::IY)), fetch: Fetch::NoFetch, cycles: 16 },
        0x69 => Decoded { instr: Instr::Bit(5, Pat8::Idx(Reg16::IY)), fetch: Fetch::NoFetch, cycles: 16 },
        0x6A => Decoded { instr: Instr::Bit(5, Pat8::Idx(Reg16::IY)), fetch: Fetch::NoFetch, cycles: 16 },
        0x6B => Decoded { instr: Instr::Bit(5, Pat8::Idx(Reg16::IY)), fetch: Fetch::NoFetch, cycles: 16 },
        0x6C => Decoded { instr: Instr::Bit(5, Pat8::Idx(Reg16::IY)), fetch: Fetch::NoFetch, cycles: 16 },
        0x6D => Decoded { instr: Instr::Bit(5, Pat8::Idx(Reg16::IY)), fetch: Fetch::NoFetch, cycles: 16 },
        0x6E => Decoded { instr: Instr::Bit(5, Pat8::Idx(Reg16::IY)), fetch: Fetch::NoFetch, cycles: 16 },
        0x6F => Decoded { instr: Instr::Bit(5, Pat8::Idx(Reg16::IY)), fetch: Fetch::NoFetch, cycles: 16 },
        0x70 => Decoded { instr: Instr::Bit(6, Pat8::Idx(Reg16::IY)), fetch: Fetch::NoFetch, cycles: 16 },
        0x71 => Decoded { instr: Instr::Bit(6, Pat8::Idx(Reg16::IY)), fetch: Fetch::NoFetch, cycles: 16 },
        0x72 => Decoded { instr: Instr::Bit(6, Pat8::Idx(Reg16::IY)), fetch: Fetch::NoFetch, cycles: 16 },
        0x73 => Decoded { instr: Instr::Bit(6, Pat8::Idx(Reg16::IY)), fetch: Fetch::NoFetch, cycles: 16 },
        0x74 => Decoded { instr: Instr::Bit(6, Pat8::Idx(Reg16::IY)), fetch: Fetch::NoFetch, cycles: 16 },
        0x75 => Decoded { instr: Instr::Bit(6, Pat8::Idx(Reg16::IY)), fetch: Fetch::NoFetch, cycles: 16 },
        0x76 => Decoded { instr: Instr::Bit(6, Pat8::Idx(Reg16::IY)), fetch: Fetch::NoFetch, cycles: 16 },
        0x77 => Decoded { instr: Instr::Bit(6, Pat8::Idx(Reg16::IY)), fetch: Fetch::NoFetch, cycles: 16 },
        0x78 => Decoded { instr: Instr::Bit(7, Pat8::Idx(Reg16::IY)), fetch: Fetch::NoFetch, cycles: 16 },
        0x79 => Decoded { instr: Instr::Bit(7, Pat8::Idx(Reg16::IY)), fetch: Fetch::NoFetch, cycles: 16 },
        0x7A => Decoded { instr: Instr::Bit(7, Pat8::Idx(Reg16::IY)), fetch: Fetch::NoFetch, cycles: 16 },
        0x7B => Decoded { instr: Instr::Bit(7, Pat8::Idx(Reg16::IY)), fetch: Fetch::NoFetch, cycles: 16 },
        0x7C => Decoded { instr: Instr::Bit(7, Pat8::Idx(Reg16::IY)), fetch: Fetch::NoFetch, cycles: 16 },
        0x7D => Decoded { instr: Instr::Bit(7, Pat8::Idx(Reg16::IY)), fetch: Fetch::NoFetch, cycles: 16 },
        0x7E => Decoded { instr: Instr::Bit(7, Pat8::Idx(Reg16::IY)), fetch: Fetch::NoFetch, cycles: 16 },
        0x7F => Decoded { instr: Instr::Bit(7, Pat8::Idx(Reg16::IY)), fetch: Fetch::NoFetch, cycles: 16 },
        0x80 => Decoded { instr: Instr::ResStore(0, Pat8::Idx(Reg16::IY), Reg8::B), fetch: Fetch::NoFetch, cycles: 19 },
        0x81 => Decoded { instr: Instr::ResStore(0, Pat8::Idx(Reg16::IY), Reg8::C), fetch: Fetch::NoFetch, cycles: 19 },
        0x82 => Decoded { instr: Instr::ResStore(0, Pat8::Idx(Reg16::IY), Reg8::D), fetch: Fetch::NoFetch, cycles: 19 },
        0x83 => Decoded { instr: Instr::ResStore(0, Pat8::Idx(Reg16::IY), Reg8::E), fetch: Fetch::NoFetch, cycles: 19 },
        0x84 => Decoded { instr: Instr::ResStore(0, Pat8::Idx(Reg16::IY), Reg8::H), fetch: Fetch::NoFetch, cycles: 19 },
        0x85 => Decoded { instr: Instr::ResStore(0, Pat8::Idx(Reg16::IY), Reg8::L), fetch: Fetch::NoFetch, cycles: 19 },
        0x86 => Decoded { instr: Instr::SetRes(0, Pat8::Idx(Reg16::IY), false), fetch: Fetch::NoFetch, cycles: 19 },
        0x87 => Decoded { instr: Instr::ResStore(0, Pat8::Idx(Reg16::IY), Reg8::A), fetch: Fetch::NoFetch, cycles: 19 },
        0x88 => Decoded { instr: Instr::ResStore(1, Pat8::Idx(Reg16::IY), Reg8::B), fetch: Fetch::NoFetch, cycles: 19 },
        0x89 => Decoded { instr: Instr::ResStore(1, Pat8::Idx(Reg16::IY), Reg8::C), fetch: Fetch::NoFetch, cycles: 19 },
        0x8A => Decoded { instr: Instr::ResStore(1, Pat8::Idx(Reg16::IY), Reg8::D), fetch: Fetch::NoFetch, cycles: 19 },
        0x8B => Decoded { instr: Instr::ResStore(1, Pat8::Idx(Reg16::IY), Reg8::E), fetch: Fetch::NoFetch, cycles: 19 },
        0x8C => Decoded { instr: Instr::ResStore(1, Pat8::Idx(Reg16::IY), Reg8::H), fetch: Fetch::NoFetch, cycles: 19 },
        0x8D => Decoded { instr: Instr::ResStore(1, Pat8::Idx(Reg16::IY), Reg8::L), fetch: Fetch::NoFetch, cycles: 19 },
        0x8E => Decoded { instr: Instr::SetRes(1, Pat8::Idx(Reg16::IY), false), fetch: Fetch::NoFetch, cycles: 19 },
        0x8F => Decoded { instr: Instr::ResStore(1, Pat8::Idx(Reg16::IY), Reg8::A), fetch: Fetch::NoFetch, cycles: 19 },
        0x90 => Decoded { instr: Instr::ResStore(2, Pat8::Idx(Reg16::IY), Reg8::B), fetch: Fetch::NoFetch, cycles: 19 },
        0x91 => Decoded { instr: Instr::ResStore(2, Pat8::Idx(Reg16::IY), Reg8::C), fetch: Fetch::NoFetch, cycles: 19 },
        0x92 => Decoded { instr: Instr::ResStore(2, Pat8::Idx(Reg16::IY), Reg8::D), fetch: Fetch::NoFetch, cycles: 19 },
        0x93 => Decoded { instr: Instr::ResStore(2, Pat8::Idx(Reg16::IY), Reg8::E), fetch: Fetch::NoFetch, cycles: 19 },
        0x94 => Decoded { instr: Instr::ResStore(2, Pat8::Idx(Reg16::IY), Reg8::H), fetch: Fetch::NoFetch, cycles: 19 },
        0x95 => Decoded { instr: Instr::ResStore(2, Pat8::Idx(Reg16::IY), Reg8::L), fetch: Fetch::NoFetch, cycles: 19 },
        0x96 => Decoded { instr: Instr::SetRes(2, Pat8::Idx(Reg16::IY), false), fetch: Fetch::NoFetch, cycles: 19 },
        0x97 => Decoded { instr: Instr::ResStore(2, Pat8::Idx(Reg16::IY), Reg8::A), fetch: Fetch::NoFetch, cycles: 19 },
        0x98 => Decoded { instr: Instr::ResStore(3, Pat8::Idx(Reg16::IY), Reg8::B), fetch: Fetch::NoFetch, cycles: 19 },
        0x99 => Decoded { instr: Instr::ResStore(3, Pat8::Idx(Reg16::IY), Reg8::C), fetch: Fetch::NoFetch, cycles: 19 },
        0x9A => Decoded { instr: Instr::ResStore(3, Pat8::Idx(Reg16::IY), Reg8::D), fetch: Fetch::NoFetch, cycles: 19 },
        0x9B => Decoded { instr: Instr::ResStore(3, Pat8::Idx(Reg16::IY), Reg8::E), fetch: Fetch::NoFetch, cycles: 19 },
        0x9C => Decoded { instr: Instr::ResStore(3, Pat8::Idx(Reg16::IY), Reg8::H), fetch: Fetch::NoFetch, cycles: 19 },
        0x9D => Decoded { instr: Instr::ResStore(3, Pat8::Idx(Reg16::IY), Reg8::L), fetch: Fetch::NoFetch, cycles: 19 },
        0x9E => Decoded { instr: Instr::SetRes(3, Pat8::Idx(Reg16::IY), false), fetch: Fetch::NoFetch, cycles: 19 },
        0x9F => Decoded { instr: Instr::ResStore(3, Pat8::Idx(Reg16::IY), Reg8::A), fetch: Fetch::NoFetch, cycles: 19 },
        0xA0 => Decoded { instr: Instr::ResStore(4, Pat8::Idx(Reg16::IY), Reg8::B), fetch: Fetch::NoFetch, cycles: 19 },
        0xA1 => Decoded { instr: Instr::ResStore(4, Pat8::Idx(Reg16::IY), Reg8::C), fetch: Fetch::NoFetch, cycles: 19 },
        0xA2 => Decoded { instr: Instr::ResStore(4, Pat8::Idx(Reg16::IY), Reg8::D), fetch: Fetch::NoFetch, cycles: 19 },
        0xA3 => Decoded { instr: Instr::ResStore(4, Pat8::Idx(Reg16::IY), Reg8::E), fetch: Fetch::NoFetch, cycles: 19 },
        0xA4 => Decoded { instr: Instr::ResStore(4, Pat8::Idx(Reg16::IY), Reg8::H), fetch: Fetch::NoFetch, cycles: 19 },
        0xA5 => Decoded { instr: Instr::ResStore(4, Pat8::Idx(Reg16::IY), Reg8::L), fetch: Fetch::NoFetch, cycles: 19 },
        0xA6 => Decoded { instr: Instr::SetRes(4, Pat8::Idx(Reg16::IY), false), fetch: Fetch::NoFetch, cycles: 19 },
        0xA7 => Decoded { instr: Instr::ResStore(4, Pat8::Idx(Reg16::IY), Reg8::A), fetch: Fetch::NoFetch, cycles: 19 },
        0xA8 => Decoded { instr: Instr::ResStore(5, Pat8::Idx(Reg16::IY), Reg8::B), fetch: Fetch::NoFetch, cycles: 19 },
        0xA9 => Decoded { instr: Instr::ResStore(5, Pat8::Idx(Reg16::IY), Reg8::C), fetch: Fetch::NoFetch, cycles: 19 },
        0xAA => Decoded { instr: Instr::ResStore(5, Pat8::Idx(Reg16::IY), Reg8::D), fetch: Fetch::NoFetch, cycles: 19 },
        0xAB => Decoded { instr: Instr::ResStore(5, Pat8::Idx(Reg16::IY), Reg8::E), fetch: Fetch::NoFetch, cycles: 19 },
        0xAC => Decoded { instr: Instr::ResStore(5, Pat8::Idx(Reg16::IY), Reg8::H), fetch: Fetch::NoFetch, cycles: 19 },
        0xAD => Decoded { instr: Instr::ResStore(5, Pat8::Idx(Reg16::IY), Reg8::L), fetch: Fetch::NoFetch, cycles: 19 },
        0xAE => Decoded { instr: Instr::SetRes(5, Pat8::Idx(Reg16::IY), false), fetch: Fetch::NoFetch, cycles: 19 },
        0xAF => Decoded { instr: Instr::ResStore(5, Pat8::Idx(Reg16::IY), Reg8::A), fetch: Fetch::NoFetch, cycles: 19 },
        0xB0 => Decoded { instr: Instr::ResStore(6, Pat8::Idx(Reg16::IY), Reg8::B), fetch: Fetch::NoFetch, cycles: 19 },
        0xB1 => Decoded { instr: Instr::ResStore(6, Pat8::Idx(Reg16::IY), Reg8::C), fetch: Fetch::NoFetch, cycles: 19 },
        0xB2 => Decoded { instr: Instr::ResStore(6, Pat8::Idx(Reg16::IY), Reg8::D), fetch: Fetch::NoFetch, cycles: 19 },
        0xB3 => Decoded { instr: Instr::ResStore(6, Pat8::Idx(Reg16::IY), Reg8::E), fetch: Fetch::NoFetch, cycles: 19 },
        0xB4 => Decoded { instr: Instr::ResStore(6, Pat8::Idx(Reg16::IY), Reg8::H), fetch: Fetch::NoFetch, cycles: 19 },
        0xB5 => Decoded { instr: Instr::ResStore(6, Pat8::Idx(Reg16::IY), Reg8::L), fetch: Fetch::NoFetch, cycles: 19 },
        0xB6 => Decoded { instr: Instr::SetRes(6, Pat8::Idx(Reg16::IY), false), fetch: Fetch::NoFetch, cycles: 19 },
        0xB7 => Decoded { instr: Instr::ResStore(6, Pat8::Idx(Reg16::IY), Reg8::A), fetch: Fetch::NoFetch, cycles: 19 },
        0xB8 => Decoded { instr: Instr::ResStore(7, Pat8::Idx(Reg16::IY), Reg8::B), fetch: Fetch::NoFetch, cycles: 19 },
        0xB9 => Decoded { instr: Instr::ResStore(7, Pat8::Idx(Reg16::IY), Reg8::C), fetch: Fetch::NoFetch, cycles: 19 },
        0xBA => Decoded { instr: Instr::ResStore(7, Pat8::Idx(Reg16::IY), Reg8::D), fetch: Fetch::NoFetch, cycles: 19 },
        0xBB => Decoded { instr: Instr::ResStore(7, Pat8::Idx(Reg16::IY), Reg8::E), fetch: Fetch::NoFetch, cycles: 19 },
        0xBC => Decoded { instr: Instr::ResStore(7, Pat8::Idx(Reg16::IY), Reg8::H), fetch: Fetch::NoFetch, cycles: 19 },
        0xBD => Decoded { instr: Instr::ResStore(7, Pat8::Idx(Reg16::IY), Reg8::L), fetch: Fetch::NoFetch, cycles: 19 },
        0xBE => Decoded { instr: Instr::SetRes(7, Pat8::Idx(Reg16::IY), false), fetch: Fetch::NoFetch, cycles: 19 },
        0xBF => Decoded { instr: Instr::ResStore(7, Pat8::Idx(Reg16::IY), Reg8::A), fetch: Fetch::NoFetch, cycles: 19 },
        0xC0 => Decoded { instr: Instr::SetStore(0, Pat8::Idx(Reg16::IY), Reg8::B), fetch: Fetch::NoFetch, cycles: 19 },
        0xC1 => Decoded { instr: Instr::SetStore(0, Pat8::Idx(Reg16::IY), Reg8::C), fetch: Fetch::NoFetch, cycles: 19 },
        0xC2 => Decoded { instr: Instr::SetStore(0, Pat8::Idx(Reg16::IY), Reg8::D), fetch: Fetch::NoFetch, cycles: 19 },
        0xC3 => Decoded { instr: Instr::SetStore(0, Pat8::Idx(Reg16::IY), Reg8::E), fetch: Fetch::NoFetch, cycles: 19 },
        0xC4 => Decoded { instr: Instr::SetStore(0, Pat8::Idx(Reg16::IY), Reg8::H), fetch: Fetch::NoFetch, cycles: 19 },
        0xC5 => Decoded { instr: Instr::SetStore(0, Pat8::Idx(Reg16::IY), Reg8::L), fetch: Fetch::NoFetch, cycles: 19 },
        0xC6 => Decoded { instr: Instr::SetRes(0, Pat8::Idx(Reg16::IY), true), fetch: Fetch::NoFetch, cycles: 19 },
        0xC7 => Decoded { instr: Instr::SetStore(0, Pat8::Idx(Reg16::IY), Reg8::A), fetch: Fetch::NoFetch, cycles: 19 },
        0xC8 => Decoded { instr: Instr::SetStore(1, Pat8::Idx(Reg16::IY), Reg8::B), fetch: Fetch::NoFetch, cycles: 19 },
        0xC9 => Decoded { instr: Instr::SetStore(1, Pat8::Idx(Reg16::IY), Reg8::C), fetch: Fetch::NoFetch, cycles: 19 },
        0xCA => Decoded { instr: Instr::SetStore(1, Pat8::Idx(Reg16::IY), Reg8::D), fetch: Fetch::NoFetch, cycles: 19 },
        0xCB => Decoded { instr: Instr::SetStore(1, Pat8::Idx(Reg16::IY), Reg8::E), fetch: Fetch::NoFetch, cycles: 19 },
        0xCC => Decoded { instr: Instr::SetStore(1, Pat8::Idx(Reg16::IY), Reg8::H), fetch: Fetch::NoFetch, cycles: 19 },
        0xCD => Decoded { instr: Instr::SetStore(1, Pat8::Idx(Reg16::IY), Reg8::L), fetch: Fetch::NoFetch, cycles: 19 },
        0xCE => Decoded { instr: Instr::SetRes(1, Pat8::Idx(Reg16::IY), true), fetch: Fetch::NoFetch, cycles: 19 },
        0xCF => Decoded { instr: Instr::SetStore(1, Pat8::Idx(Reg16::IY), Reg8::A), fetch: Fetch::NoFetch, cycles: 19 },
        0xD0 => Decoded { instr: Instr::SetStore(2, Pat8::Idx(Reg16::IY), Reg8::B), fetch: Fetch::NoFetch, cycles: 19 },
        0xD1 => Decoded { instr: Instr::SetStore(2, Pat8::Idx(Reg16::IY), Reg8::C), fetch: Fetch::NoFetch, cycles: 19 },
        0xD2 => Decoded { instr: Instr::SetStore(2, Pat8::Idx(Reg16::IY), Reg8::D), fetch: Fetch::NoFetch, cycles: 19 },
        0xD3 => Decoded { instr: Instr::SetStore(2, Pat8::Idx(Reg16::IY), Reg8::E), fetch: Fetch::NoFetch, cycles: 19 },
        0xD4 => Decoded { instr: Instr::SetStore(2, Pat8::Idx(Reg16::IY), Reg8::H), fetch: Fetch::NoFetch, cycles: 19 },
        0xD5 => Decoded { instr: Instr::SetStore(2, Pat8::Idx(Reg16::IY), Reg8::L), fetch: Fetch::NoFetch, cycles: 19 },
        0xD6 => Decoded { instr: Instr::SetRes(2, Pat8::Idx(Reg16::IY), true), fetch: Fetch::NoFetch, cycles: 19 },
        0xD7 => Decoded { instr: Instr::SetStore(2, Pat8::Idx(Reg16::IY), Reg8::A), fetch: Fetch::NoFetch, cycles: 19 },
        0xD8 => Decoded { instr: Instr::SetStore(3, Pat8::Idx(Reg16::IY), Reg8::B), fetch: Fetch::NoFetch, cycles: 19 },
        0xD9 => Decoded { instr: Instr::SetStore(3, Pat8::Idx(Reg16::IY), Reg8::C), fetch: Fetch::NoFetch, cycles: 19 },
        0xDA => Decoded { instr: Instr::SetStore(3, Pat8::Idx(Reg16::IY), Reg8::D), fetch: Fetch::NoFetch, cycles: 19 },
        0xDB => Decoded { instr: Instr::SetStore(3, Pat8::Idx(Reg16::IY), Reg8::E), fetch: Fetch::NoFetch, cycles: 19 },
        0xDC => Decoded { instr: Instr::SetStore(3, Pat8::Idx(Reg16::IY), Reg8::H), fetch: Fetch::NoFetch, cycles: 19 },
        0xDD => Decoded { instr: Instr::SetStore(3, Pat8::Idx(Reg16::IY), Reg8::L), fetch: Fetch::NoFetch, cycles: 19 },
        0xDE => Decoded { instr: Instr::SetRes(3, Pat8::Idx(Reg16::IY), true), fetch: Fetch::NoFetch, cycles: 19 },
        0xDF => Decoded { instr: Instr::SetStore(3, Pat8::Idx(Reg16::IY), Reg8::A), fetch: Fetch::NoFetch, cycles: 19 },
        0xE0 => Decoded { instr: Instr::SetStore(4, Pat8::Idx(Reg16::IY), Reg8::B), fetch: Fetch::NoFetch, cycles: 19 },
        0xE1 => Decoded { instr: Instr::SetStore(4, Pat8::Idx(Reg16::IY), Reg8::C), fetch: Fetch::NoFetch, cycles: 19 },
        0xE2 => Decoded { instr: Instr::SetStore(4, Pat8::Idx(Reg16::IY), Reg8::D), fetch: Fetch::NoFetch, cycles: 19 },
        0xE3 => Decoded { instr: Instr::SetStore(4, Pat8::Idx(Reg16::IY), Reg8::E), fetch: Fetch::NoFetch, cycles: 19 },
        0xE4 => Decoded { instr: Instr::SetStore(4, Pat8::Idx(Reg16::IY), Reg8::H), fetch: Fetch::NoFetch, cycles: 19 },
        0xE5 => Decoded { instr: Instr::SetStore(4, Pat8::Idx(Reg16::IY), Reg8::L), fetch: Fetch::NoFetch, cycles: 19 },
        0xE6 => Decoded { instr: Instr::SetRes(4, Pat8::Idx(Reg16::IY), true), fetch: Fetch::NoFetch, cycles: 19 },
        0xE7 => Decoded { instr: Instr::SetStore(4, Pat8::Idx(Reg16::IY), Reg8::A), fetch: Fetch::NoFetch, cycles: 19 },
        0xE8 => Decoded { instr: Instr::SetStore(5, Pat8::Idx(Reg16::IY), Reg8::B), fetch: Fetch::NoFetch, cycles: 19 },
        0xE9 => Decoded { instr: Instr::SetStore(5, Pat8::Idx(Reg16::IY), Reg8::C), fetch: Fetch::NoFetch, cycles: 19 },
        0xEA => Decoded { instr: Instr::SetStore(5, Pat8::Idx(Reg16::IY), Reg8::D), fetch: Fetch::NoFetch, cycles: 19 },
        0xEB => Decoded { instr: Instr::SetStore(5, Pat8::Idx(Reg16::IY), Reg8::E), fetch: Fetch::NoFetch, cycles: 19 },
        0xEC => Decoded { instr: Instr::SetStore(5, Pat8::Idx(Reg16::IY), Reg8::H), fetch: Fetch::NoFetch, cycles: 19 },
        0xED => Decoded { instr: Instr::SetStore(5, Pat8::Idx(Reg16::IY), Reg8::L), fetch: Fetch::NoFetch, cycles: 19 },
        0xEE => Decoded { instr: Instr::SetRes(5, Pat8::Idx(Reg16::IY), true), fetch: Fetch::NoFetch, cycles: 19 },
        0xEF => Decoded { instr: Instr::SetStore(5, Pat8::Idx(Reg16::IY), Reg8::A), fetch: Fetch::NoFetch, cycles: 19 },
        0xF0 => Decoded { instr: Instr::SetStore(6, Pat8::Idx(Reg16::IY), Reg8::B), fetch: Fetch::NoFetch, cycles: 19 },
        0xF1 => Decoded { instr: Instr::SetStore(6, Pat8::Idx(Reg16::IY), Reg8::C), fetch: Fetch::NoFetch, cycles: 19 },
        0xF2 => Decoded { instr: Instr::SetStore(6, Pat8::Idx(Reg16::IY), Reg8::D), fetch: Fetch::NoFetch, cycles: 19 },
        0xF3 => Decoded { instr: Instr::SetStore(6, Pat8::Idx(Reg16::IY), Reg8::E), fetch: Fetch::NoFetch, cycles: 19 },
        0xF4 => Decoded { instr: Instr::SetStore(6, Pat8::Idx(Reg16::IY), Reg8::H), fetch: Fetch::NoFetch, cycles: 19 },
        0xF5 => Decoded { instr: Instr::SetStore(6, Pat8::Idx(Reg16::IY), Reg8::L), fetch: Fetch::NoFetch, cycles: 19 },
        0xF6 => Decoded { instr: Instr::SetRes(6, Pat8::Idx(Reg16::IY), true), fetch: Fetch::NoFetch, cycles: 19 },
        0xF7 => Decoded { instr: Instr::SetStore(6, Pat8::Idx(Reg16::IY), Reg8::A), fetch: Fetch::NoFetch, cycles: 19 },
        0xF8 => Decoded { instr: Instr::SetStore(7, Pat8::Idx(Reg16::IY), Reg8::B), fetch: Fetch::NoFetch, cycles: 19 },
        0xF9 => Decoded { instr: Instr::SetStore(7, Pat8::Idx(Reg16::IY), Reg8::C), fetch: Fetch::NoFetch, cycles: 19 },
        0xFA => Decoded { instr: Instr::SetStore(7, Pat8::Idx(Reg16::IY), Reg8::D), fetch: Fetch::NoFetch, cycles: 19 },
        0xFB => Decoded { instr: Instr::SetStore(7, Pat8::Idx(Reg16::IY), Reg8::E), fetch: Fetch::NoFetch, cycles: 19 },
        0xFC => Decoded { instr: Instr::SetStore(7, Pat8::Idx(Reg16::IY), Reg8::H), fetch: Fetch::NoFetch, cycles: 19 },
        0xFD => Decoded { instr: Instr::SetStore(7, Pat8::Idx(Reg16::IY), Reg8::L), fetch: Fetch::NoFetch, cycles: 19 },
        0xFE => Decoded { instr: Instr::SetRes(7, Pat8::Idx(Reg16::IY), true), fetch: Fetch::NoFetch, cycles: 19 },
        0xFF => Decoded { instr: Instr::SetStore(7, Pat8::Idx(Reg16::IY), Reg8::A), fetch: Fetch::NoFetch, cycles: 19 },
    }
}

} // verus!
