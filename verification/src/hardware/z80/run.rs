//! Interrupts, and running the Z80 for a number of cycles.
use vstd::prelude::*;
use crate::hardware::io16::Io16;
use crate::hardware::memory16::Memory16;
use crate::memo::{spec_sent, Inbox};
use crate::utilities::to16;
use super::instruction::{self, spec_run_table, Table};
use super::internal::{word, InterruptMode, InterruptStatus, Prefix, Reg16, Reg8, Z80State};
use super::mem::{call, spec_call};
use super::no::cycles_ok;

verus! {

broadcast use super::internal::group_z80_state;

/// The lines that request interrupts from the Z80.
///
/// `spec_requesting_mi` is the data byte of a pending maskable interrupt,
/// `spec_requesting_nmi` whether a nonmaskable one is pending, and
/// `spec_take_nmi` the lines after the Z80 took the nonmaskable one.
pub trait Z80Irq: Sized {
    spec fn spec_requesting_mi(&self) -> Option<u8>;

    spec fn spec_requesting_nmi(&self) -> bool;

    spec fn spec_take_nmi(&self) -> Self;

    fn requesting_mi(&mut self) -> (r: Option<u8>)
        ensures
            r == old(self).spec_requesting_mi(),
            *final(self) == *old(self),
    ;

    fn requesting_nmi(&mut self) -> (r: bool)
        ensures
            r == old(self).spec_requesting_nmi(),
            *final(self) == *old(self),
    ;

    fn take_nmi(&mut self)
        ensures
            *final(self) == old(self).spec_take_nmi(),
    ;
}

/// Errors in running the Z80.
#[derive(Clone, Copy, Debug, PartialEq, Eq, Structural)]
pub enum Z80Error {
    /// A maskable interrupt arrived while interrupts were enabled in
    /// interrupt mode 0, which this emulator does not implement.
    UnsupportedInterruptMode,
}

/// What the Z80 tells its inbox as it runs: each interrupt it is asked to
/// take, with the interrupt mode and the data byte of a maskable one.
#[derive(Clone, Copy, Debug, PartialEq, Eq, Structural)]
pub enum Z80Memo {
    NonmaskableInterrupt,
    MaskableInterrupt { mode: u8, byte: u8 },
}

/// The number of an interrupt mode.
pub open spec fn spec_mode_number(m: InterruptMode) -> u8 {
    match m {
        InterruptMode::Im0 => 0,
        InterruptMode::Im1 => 1,
        InterruptMode::Im2 => 2,
    }
}

fn mode_number(m: InterruptMode) -> (r: u8)
    ensures
        r == spec_mode_number(m),
{
    match m {
        InterruptMode::Im0 => 0,
        InterruptMode::Im1 => 1,
        InterruptMode::Im2 => 2,
    }
}

/// A Z80 with its memory, its IO system, which also drives its interrupt
/// lines, and the inbox it sends its memos to.
pub struct Z80RunImpler<M, I, B> {
    pub z80: Z80State,
    pub memory: M,
    pub io: I,
    pub inbox: B,
}

/// Can a maskable interrupt be taken in this state? (In mode 0 with
/// interrupts enabled it cannot.)
pub open spec fn mi_supported(z: Z80State) -> bool {
    !(z.iff1 && z.interrupt_mode == InterruptMode::Im0)
}

/// A nonmaskable interrupt: R advances, IFF1 is cleared, 11 cycles, and a
/// call to 0x66.
pub open spec fn spec_nonmaskable_interrupt<M: Memory16>(z: Z80State, m: M) -> (Z80State, M) {
    let z1 = Z80State { iff1: false, prefix: Prefix::NoPrefix, ..z.spec_inc_r(1) };
    spec_call(z1.plus_cycles(11), m, 0x66)
}

/// A maskable interrupt with data byte `x`: ignored unless IFF1; otherwise R
/// advances, both flip-flops are cleared, and in mode 1 a call to 0x38 (13
/// cycles), in mode 2 a call to the address with low byte `x` and high byte
/// I (19 cycles).
pub open spec fn spec_maskable_interrupt<M: Memory16>(z: Z80State, m: M, x: u8) -> (Z80State, M) {
    if z.iff1 {
        let z1 = Z80State {
            iff1: false,
            iff2: false,
            prefix: Prefix::NoPrefix,
            ..z.spec_inc_r(1)
        };
        if z.interrupt_mode == InterruptMode::Im1 {
            let (z2, m2) = spec_call(z1, m, 0x38);
            (z2.plus_cycles(13), m2)
        } else {
            let (z2, m2) = spec_call(z1, m, word(x, z1.r8(Reg8::I)));
            (z2.plus_cycles(19), m2)
        }
    } else {
        (z, m)
    }
}

impl<M: Memory16, I: Io16 + Z80Irq, B: Inbox<Memo = Z80Memo>> Z80RunImpler<M, I, B> {
    pub open spec fn with(self, z80: Z80State, memory: M, io: I, inbox: B) -> Self {
        Z80RunImpler { z80, memory, io, inbox }
    }

    pub fn maskable_interrupt(&mut self, x: u8)
        requires
            mi_supported(old(self).z80),
            cycles_ok(old(self).z80),
        ensures
            (final(self).z80, final(self).memory) == spec_maskable_interrupt(
                old(self).z80,
                old(self).memory,
                x,
            ),
            final(self).io == old(self).io,
            final(self).inbox == old(self).inbox,
    {
        if self.z80.iff1() {
            self.z80.inc_r(1);
            self.z80.set_iff1(false);
            self.z80.set_iff2(false);
            self.z80.set_prefix(Prefix::NoPrefix);
            match self.z80.interrupt_mode() {
                InterruptMode::Im1 => {
                    call(&mut self.z80, &mut self.memory, 0x38);
                    self.z80.inc_cycles(13);
                },
                _ => {
                    let i = self.z80.reg8(Reg8::I);
                    let new_pc = to16(x, i);
                    call(&mut self.z80, &mut self.memory, new_pc);
                    self.z80.inc_cycles(19);
                },
            }
        }
    }

    pub fn nonmaskable_interrupt(&mut self)
        requires
            cycles_ok(old(self).z80),
        ensures
            (final(self).z80, final(self).memory) == spec_nonmaskable_interrupt(
                old(self).z80,
                old(self).memory,
            ),
            final(self).io == old(self).io,
            final(self).inbox == old(self).inbox,
    {
        self.z80.inc_r(1);
        self.z80.set_iff1(false);
        self.z80.set_prefix(Prefix::NoPrefix);
        self.z80.inc_cycles(11);
        call(&mut self.z80, &mut self.memory, 0x66);
    }

    /// The machine after checking for interrupts: the interrupt status is
    /// reset, then a pending nonmaskable interrupt is taken, or else a
    /// pending maskable one; the inbox is sent a memo of the interrupt.
    pub open spec fn spec_check_interrupts(self) -> Result<Self, Z80Error> {
        let z = Z80State { interrupt_status: InterruptStatus::NoCheck, ..self.z80 };
        if self.io.spec_requesting_nmi() {
            let (z1, m1) = spec_nonmaskable_interrupt(z, self.memory);
            Ok(
                self.with(
                    z1,
                    m1,
                    self.io.spec_take_nmi(),
                    spec_sent(self.inbox, Z80Memo::NonmaskableInterrupt),
                ),
            )
        } else {
            match self.io.spec_requesting_mi() {
                Some(x) => if mi_supported(z) {
                    let (z1, m1) = spec_maskable_interrupt(z, self.memory, x);
                    let memo = Z80Memo::MaskableInterrupt { mode: spec_mode_number(z.interrupt_mode), byte: x };
                    Ok(self.with(z1, m1, self.io, spec_sent(self.inbox, memo)))
                } else {
                    Err(Z80Error::UnsupportedInterruptMode)
                },
                None => Ok(self.with(z, self.memory, self.io, self.inbox)),
            }
        }
    }

    pub fn check_interrupts(&mut self) -> (r: Result<(), Z80Error>)
        requires
            cycles_ok(old(self).z80),
        ensures
            match old(self).spec_check_interrupts() {
                Ok(s) => r is Ok && *final(self) == s,
                Err(e) => r == Err::<(), Z80Error>(e),
            },
            old(self).z80.cycles <= final(self).z80.cycles <= old(self).z80.cycles + 19,
    {
        self.z80.set_interrupt_status(InterruptStatus::NoCheck);
        if self.io.requesting_nmi() {
            self.inbox.receive(Z80Memo::NonmaskableInterrupt);
            self.io.take_nmi();
            self.nonmaskable_interrupt();
            return Ok(());
        }
        match self.io.requesting_mi() {
            Some(x) => {
                let mode = mode_number(self.z80.interrupt_mode());
                self.inbox.receive(Z80Memo::MaskableInterrupt { mode, byte: x });
                if self.z80.iff1() && matches!(self.z80.interrupt_mode(), InterruptMode::Im0) {
                    return Err(Z80Error::UnsupportedInterruptMode);
                }
                self.maskable_interrupt(x);
                Ok(())
            },
            None => Ok(()),
        }
    }

    /// What one step of `run` does, with the state it starts from.
    #[verifier::opaque]
    pub open spec fn spec_step(self, target_cycles: u64) -> Result<Self, Z80Error> {
        let z = self.z80;
        match z.prefix {
            Prefix::Halt => match z.interrupt_status {
                InterruptStatus::NoCheck => Ok(
                    Z80RunImpler {
                        z80: Z80State {
                            cycles: if z.cycles < target_cycles {
                                target_cycles
                            } else {
                                z.cycles
                            },
                            ..z
                        },
                        ..self
                    },
                ),
                _ => self.spec_check_interrupts(),
            },
            Prefix::NoPrefix => {
                let check = match z.interrupt_status {
                    InterruptStatus::Check => true,
                    InterruptStatus::Ei(c) => z.cycles > c,
                    InterruptStatus::NoCheck => false,
                };
                if check {
                    self.spec_check_interrupts()
                } else {
                    self.spec_table(z, Table::Main(Reg16::HL))
                }
            },
            Prefix::Cb => self.spec_table(
                Z80State { prefix: Prefix::NoPrefix, ..z },
                Table::Cb,
            ),
            Prefix::Ed => self.spec_table(
                Z80State { prefix: Prefix::NoPrefix, ..z },
                Table::Ed,
            ),
            Prefix::Dd => self.spec_table(
                Z80State { prefix: Prefix::NoPrefix, ..z.spec_inc_r(1) },
                Table::Main(Reg16::IX),
            ),
            Prefix::Fd => self.spec_table(
                Z80State { prefix: Prefix::NoPrefix, ..z.spec_inc_r(1) },
                Table::Main(Reg16::IY),
            ),
            Prefix::DdCb => self.spec_table(
                Z80State { prefix: Prefix::NoPrefix, ..z },
                Table::IndexCb(Reg16::IX),
            ),
            Prefix::FdCb => self.spec_table(
                Z80State { prefix: Prefix::NoPrefix, ..z },
                Table::IndexCb(Reg16::IY),
            ),
        }
    }

    /// Run one instruction of table `t` from Z80 state `z`.
    pub open spec fn spec_table(self, z: Z80State, t: Table) -> Result<Self, Z80Error> {
        let (z1, m1, io1) = spec_run_table(z, self.memory, self.io, t);
        Ok(self.with(z1, m1, io1, self.inbox))
    }

    /// One step of the run loop: handle a halt, check interrupts, or run the
    /// instruction at PC according to the current prefix.
    pub fn step(&mut self, target_cycles: u64) -> (r: Result<(), Z80Error>)
        requires
            cycles_ok(old(self).z80),
            target_cycles < 0x8000_0000_0000_0000,
        ensures
            match old(self).spec_step(target_cycles) {
                Ok(s) => r is Ok && *final(self) == s,
                Err(e) => r == Err::<(), Z80Error>(e),
            },
            old(self).z80.cycles <= final(self).z80.cycles <= old(self).z80.cycles + 276
                || final(self).z80.cycles == target_cycles,
    {
        reveal(Z80RunImpler::spec_step);
        match self.z80.prefix() {
            Prefix::Halt => match self.z80.interrupt_status() {
                InterruptStatus::NoCheck => {
                    let c = self.z80.cycles();
                    if c < target_cycles {
                        self.z80.set_cycles(target_cycles);
                    }
                    Ok(())
                },
                _ => self.check_interrupts(),
            },
            Prefix::NoPrefix => {
                let check = match self.z80.interrupt_status() {
                    InterruptStatus::Check => true,
                    InterruptStatus::Ei(c) => self.z80.cycles() > c,
                    InterruptStatus::NoCheck => false,
                };
                if check {
                    self.check_interrupts()
                } else {
                    instruction::noprefix(&mut self.z80, &mut self.memory, &mut self.io);
                    Ok(())
                }
            },
            Prefix::Cb => {
                self.z80.set_prefix(Prefix::NoPrefix);
                instruction::cb(&mut self.z80, &mut self.memory, &mut self.io);
                Ok(())
            },
            Prefix::Ed => {
                self.z80.set_prefix(Prefix::NoPrefix);
                instruction::ed(&mut self.z80, &mut self.memory, &mut self.io);
                Ok(())
            },
            Prefix::Dd => {
                self.z80.inc_r(1);
                self.z80.set_prefix(Prefix::NoPrefix);
                instruction::dd(&mut self.z80, &mut self.memory, &mut self.io);
                Ok(())
            },
            Prefix::Fd => {
                self.z80.inc_r(1);
                self.z80.set_prefix(Prefix::NoPrefix);
                instruction::fd(&mut self.z80, &mut self.memory, &mut self.io);
                Ok(())
            },
            Prefix::DdCb => {
                self.z80.set_prefix(Prefix::NoPrefix);
                instruction::ddcb(&mut self.z80, &mut self.memory, &mut self.io);
                Ok(())
            },
            Prefix::FdCb => {
                self.z80.set_prefix(Prefix::NoPrefix);
                instruction::fdcb(&mut self.z80, &mut self.memory, &mut self.io);
                Ok(())
            },
        }
    }

    /// The state `run` starts from: interrupts are checked first if they
    /// were not going to be.
    pub open spec fn spec_start(self) -> Self {
        if self.z80.interrupt_status == InterruptStatus::NoCheck {
            Z80RunImpler {
                z80: Z80State { interrupt_status: InterruptStatus::Check, ..self.z80 },
                ..self
            }
        } else {
            self
        }
    }

    /// Steps while the cycles are below the target and the inbox is not
    /// holding, at most `fuel` of them.
    pub open spec fn spec_run_from(self, target_cycles: u64, fuel: nat) -> Result<Self, Z80Error>
        decreases fuel,
    {
        if fuel == 0 || self.z80.cycles >= target_cycles || self.inbox.spec_holding() {
            Ok(self)
        } else {
            match self.spec_step(target_cycles) {
                Ok(s) => s.spec_run_from(target_cycles, (fuel - 1) as nat),
                Err(e) => Err(e),
            }
        }
    }

    /// Run instructions (and take interrupts) until the total cycles are at
    /// least `target_cycles`, the inbox is holding, or `max_steps` steps were
    /// run.
    pub fn run(&mut self, target_cycles: u64, max_steps: u64) -> (r: Result<(), Z80Error>)
        requires
            target_cycles < 0x8000_0000_0000_0000,
        ensures
            match old(self).spec_start().spec_run_from(target_cycles, max_steps as nat) {
                Ok(s) => r is Ok && *final(self) == s,
                Err(e) => r == Err::<(), Z80Error>(e),
            },
    {
        if let InterruptStatus::NoCheck = self.z80.interrupt_status() {
            self.z80.set_interrupt_status(InterruptStatus::Check);
        }
        let ghost start = old(self).spec_start();
        assert(*self == start);
        let mut steps: u64 = 0;
        while steps < max_steps && self.z80.cycles() < target_cycles
            invariant
                start == old(self).spec_start(),
                steps <= max_steps,
                target_cycles < 0x8000_0000_0000_0000,
                start.spec_run_from(target_cycles, max_steps as nat) == self.spec_run_from(
                    target_cycles,
                    (max_steps - steps) as nat,
                ),
            decreases max_steps - steps,
        {
            if self.inbox.holding() {
                return Ok(());
            }
            let ghost before = *self;
            let r = self.step(target_cycles);
            assert(before.spec_run_from(target_cycles, (max_steps - steps) as nat) == match before.spec_step(target_cycles) {
                Ok(s) => s.spec_run_from(target_cycles, (max_steps - steps - 1) as nat),
                Err(e) => Err(e),
            });
            if let Err(e) = r {
                return Err(e);
            }
            steps = steps + 1;
        }
        Ok(())
    }
}

/// Interrupts are calls: on flat memory a nonmaskable interrupt goes to
/// 0x66, and a maskable one taken in interrupt mode 1 goes to 0x38, with
/// interrupts disabled; a `ret` afterwards returns to where the program
/// was, with the stack pointer where it was.
pub proof fn lemma_interrupts_return(z: Z80State, m: [u8; 0x10000], x: u8)
    ensures
        ({
            let (z1, m1) = spec_nonmaskable_interrupt(z, m);
            let (z2, m2) = super::mem::spec_ret(z1, m1);
            &&& z1.r16(Reg16::PC) == 0x66
            &&& !z1.iff1
            &&& z2.r16(Reg16::PC) == z.r16(Reg16::PC)
            &&& z2.r16(Reg16::SP) == z.r16(Reg16::SP)
        }),
        z.iff1 && z.interrupt_mode == InterruptMode::Im1 ==> ({
            let (z1, m1) = spec_maskable_interrupt(z, m, x);
            let (z2, m2) = super::mem::spec_ret(z1, m1);
            &&& z1.r16(Reg16::PC) == 0x38
            &&& !z1.iff1 && !z1.iff2
            &&& z2.r16(Reg16::PC) == z.r16(Reg16::PC)
            &&& z2.r16(Reg16::SP) == z.r16(Reg16::SP)
        }),
        !z.iff1 ==> spec_maskable_interrupt(z, m, x) == (z, m),
{
    let v = z.r16(Reg16::PC);
    assert(word(super::internal::lo_byte(v), super::internal::hi_byte(v)) == v);
}

} // verus!
