use lib::hardware::memory16::Memory16;
use lib::hardware::sms_io::{SmsIo16Impler, SmsZ80IrqImpler};
use lib::hardware::sms_irq::SmsPauseInterruptState;
use lib::hardware::sms_player_input::SmsPlayerInput;
use lib::hardware::sms_vdp::{Kind, SmsVdpState, TvSystem};
use lib::hardware::sn76489::FakeSn76489;
use lib::hardware::z80::internal::{transfer_state, Reg16, Reg8, Z80State, CF, NF, ZF};
use lib::hardware::z80::run::{Z80Error, Z80Memo, Z80RunImpler};
use lib::memo::{Inbox, NothingInbox};

fn machine(program: &[u8]) -> Z80RunImpler<[u8; 0x10000], SmsIo16Impler<FakeSn76489>, NothingInbox<Z80Memo>> {
    let mut memory = [0u8; 0x10000];
    memory[..program.len()].copy_from_slice(program);
    let mut z80 = Z80State::new();
    z80.set_reg16(Reg16::SP, 0xDFF0);
    Z80RunImpler {
        z80,
        memory,
        io: SmsIo16Impler {
            irq: SmsZ80IrqImpler {
                vdp: SmsVdpState::new(Kind::Sms, TvSystem::Ntsc),
                pause_interrupt: SmsPauseInterruptState::default(),
            },
            sn76489: FakeSn76489,
            player_input: SmsPlayerInput::new(),
        },
        inbox: NothingInbox::default(),
    }
}

/// Run until the clock reaches `cycles` (each run begins with a look at the
/// interrupt lines, which takes no time).
fn run_to(m: &mut Z80RunImpler<[u8; 0x10000], SmsIo16Impler<FakeSn76489>, NothingInbox<Z80Memo>>, cycles: u64) {
    assert_eq!(m.run(cycles, 1000), Ok(()));
    assert_eq!(m.z80.cycles(), cycles);
}

#[test]
fn exx_twice_restores_registers() {
    // ld bc,0x1234; ld de,0x5678; ld hl,0x9abc; exx; exx
    let mut m = machine(&[0x01, 0x34, 0x12, 0x11, 0x78, 0x56, 0x21, 0xBC, 0x9A, 0xD9, 0xD9]);
    run_to(&mut m, 34);
    assert_eq!(m.z80.reg16(Reg16::BC), 0);
    assert_eq!(m.z80.reg16(Reg16::BC0), 0x1234);
    assert_eq!(m.z80.reg16(Reg16::HL0), 0x9ABC);
    run_to(&mut m, 38);
    assert_eq!(m.z80.reg16(Reg16::BC), 0x1234);
    assert_eq!(m.z80.reg16(Reg16::DE), 0x5678);
    assert_eq!(m.z80.reg16(Reg16::HL), 0x9ABC);
}

#[test]
fn push_pop_round_trip() {
    // ld bc,0xbeef; push bc; pop de
    let mut m = machine(&[0x01, 0xEF, 0xBE, 0xC5, 0xD1]);
    run_to(&mut m, 31);
    assert_eq!(m.z80.reg16(Reg16::DE), 0xBEEF);
    assert_eq!(m.z80.reg16(Reg16::SP), 0xDFF0);
    assert_eq!(m.memory.read(0xDFEF), 0xBE);
    assert_eq!(m.memory.read(0xDFEE), 0xEF);
}

#[test]
fn call_then_ret_comes_back() {
    // call 0x0010; halt ... at 0x10: ret
    let mut program = vec![0xCD, 0x10, 0x00, 0x76];
    program.resize(0x10, 0);
    program.push(0xC9);
    let mut m = machine(&program);
    // the emulated `call nn` takes no cycles, so stop it by the step count
    assert_eq!(m.run(10, 2), Ok(()));
    assert_eq!(m.z80.reg16(Reg16::PC), 0x10);
    assert_eq!(m.z80.reg16(Reg16::SP), 0xDFEE);
    run_to(&mut m, 10);
    assert_eq!(m.z80.reg16(Reg16::PC), 3);
    assert_eq!(m.z80.reg16(Reg16::SP), 0xDFF0);
}

#[test]
fn cp_sets_zero_and_carry() {
    // ld a,5; cp 5; ... cp 9
    let mut m = machine(&[0x3E, 0x05, 0xFE, 0x05, 0xFE, 0x09, 0xFE, 0x01]);
    run_to(&mut m, 14);
    assert!(m.z80.is_set_flag(ZF));
    assert!(!m.z80.is_set_flag(CF));
    assert!(m.z80.is_set_flag(NF));
    run_to(&mut m, 21);
    assert!(!m.z80.is_set_flag(ZF));
    assert!(m.z80.is_set_flag(CF));
    run_to(&mut m, 28);
    assert!(!m.z80.is_set_flag(ZF));
    assert!(!m.z80.is_set_flag(CF));
    assert_eq!(m.z80.reg8(Reg8::A), 5);
}

#[test]
fn cpl_and_neg_twice() {
    // ld a,0x3c; cpl; cpl; neg; neg
    let mut m = machine(&[0x3E, 0x3C, 0x2F, 0x2F, 0xED, 0x44, 0xED, 0x44]);
    run_to(&mut m, 11);
    assert_eq!(m.z80.reg8(Reg8::A), 0xC3);
    run_to(&mut m, 15);
    assert_eq!(m.z80.reg8(Reg8::A), 0x3C);
    run_to(&mut m, 23);
    assert_eq!(m.z80.reg8(Reg8::A), 0xC4);
    run_to(&mut m, 31);
    assert_eq!(m.z80.reg8(Reg8::A), 0x3C);
}

#[test]
fn add_then_sub_gives_back() {
    // ld a,0xf0; add a,0x20; sub 0x20
    let mut m = machine(&[0x3E, 0xF0, 0xC6, 0x20, 0xD6, 0x20]);
    run_to(&mut m, 14);
    assert_eq!(m.z80.reg8(Reg8::A), 0x10);
    assert!(m.z80.is_set_flag(CF));
    run_to(&mut m, 21);
    assert_eq!(m.z80.reg8(Reg8::A), 0xF0);
    assert!(m.z80.is_set_flag(CF));
}

#[test]
fn run_stops_at_target_cycles() {
    // nops: 4 cycles each
    let mut m = machine(&[0u8; 64]);
    assert_eq!(m.run(40, 1000), Ok(()));
    assert_eq!(m.z80.cycles(), 40);
    assert_eq!(m.z80.reg16(Reg16::PC), 10);
}

#[test]
fn interrupt_mode_0_is_refused() {
    // ei; nop
    let mut m = machine(&[0xFB, 0x00, 0x00]);
    m.io.irq.vdp.status_flags = 0x80;
    m.io.irq.vdp.registers[1] = 0x20;
    assert_eq!(m.run(100, 10), Err(Z80Error::UnsupportedInterruptMode));
}

#[test]
fn interrupt_mode_1_calls_0x38() {
    // im 1; ei; nop; nop
    let mut m = machine(&[0xED, 0x56, 0xFB, 0x00, 0x00]);
    run_to(&mut m, 16);
    m.io.irq.vdp.status_flags = 0x80;
    m.io.irq.vdp.registers[1] = 0x20;
    assert_eq!(m.run(17, 2), Ok(()));
    assert_eq!(m.z80.reg16(Reg16::PC), 0x38);
    assert!(!m.z80.iff1());
}

#[test]
fn pause_calls_0x66() {
    let mut m = machine(&[0u8; 16]);
    m.io.irq.pause_interrupt.pause_pressed(true);
    assert_eq!(m.run(1, 1), Ok(()));
    assert_eq!(m.z80.reg16(Reg16::PC), 0x66);
    assert_eq!(m.io.irq.pause_interrupt, SmsPauseInterruptState::InterruptTaken);
}

#[test]
fn transfer_state_keeps_cycles() {
    let mut source = Z80State::new();
    source.set_reg16(Reg16::HL, 0x4242);
    source.set_cycles(99);
    let mut dest = Z80State::new();
    dest.set_cycles(7);
    transfer_state(&mut dest, &source);
    assert_eq!(dest.reg16(Reg16::HL), 0x4242);
    assert_eq!(dest.cycles(), 7);
}

#[test]
fn fd_program_runs_as_the_dd_program_on_iy() {
    // ld ix,0x1234; inc ix; ld ixh,0x55 -- and the same with iy
    let mut a = machine(&[0xDD, 0x21, 0x34, 0x12, 0xDD, 0x23, 0xDD, 0x26, 0x55]);
    let mut b = machine(&[0xFD, 0x21, 0x34, 0x12, 0xFD, 0x23, 0xFD, 0x26, 0x55]);
    assert_eq!(a.run(35, 1000), Ok(()));
    assert_eq!(b.run(35, 1000), Ok(()));
    assert_eq!(a.z80.cycles(), b.z80.cycles());
    assert_eq!(a.z80.reg16(Reg16::IX), 0x5535);
    assert_eq!(b.z80.reg16(Reg16::IY), 0x5535);
    let fresh = Z80State::new();
    assert_eq!(a.z80.reg16(Reg16::IY), fresh.reg16(Reg16::IY));
    assert_eq!(b.z80.reg16(Reg16::IX), fresh.reg16(Reg16::IX));
}

#[test]
fn fdcb_program_runs_as_the_ddcb_program_on_iy() {
    // ld ix,0xc000; set 0,(ix+2) -- and the same with iy
    let mut a = machine(&[0xDD, 0x21, 0x00, 0xC0, 0xDD, 0xCB, 0x02, 0xC6]);
    let mut b = machine(&[0xFD, 0x21, 0x00, 0xC0, 0xFD, 0xCB, 0x02, 0xC6]);
    assert_eq!(a.run(30, 1000), Ok(()));
    assert_eq!(b.run(30, 1000), Ok(()));
    assert_eq!(a.z80.cycles(), b.z80.cycles());
    assert_eq!(a.memory.read(0xC002), 1);
    assert_eq!(b.memory.read(0xC002), 1);
}

/// An inbox that keeps every memo, and holds the emulation when asked to.
struct Keeper {
    memos: Vec<Z80Memo>,
    hold: bool,
}

impl Inbox for Keeper {
    type Memo = Z80Memo;

    fn spec_active(&self) -> bool {
        unreachable!()
    }

    fn spec_receive(&self, _memo: Z80Memo) -> Self {
        unreachable!()
    }

    fn spec_holding(&self) -> bool {
        unreachable!()
    }

    fn receive_impl(&mut self, memo: Z80Memo) {
        self.memos.push(memo);
    }

    fn active(&self) -> bool {
        true
    }

    fn holding(&self) -> bool {
        self.hold
    }
}

fn kept_machine(program: &[u8], hold: bool) -> Z80RunImpler<[u8; 0x10000], SmsIo16Impler<FakeSn76489>, Keeper> {
    let m = machine(program);
    Z80RunImpler { z80: m.z80, memory: m.memory, io: m.io, inbox: Keeper { memos: Vec::new(), hold } }
}

#[test]
fn a_holding_inbox_stops_the_run() {
    // ld a,1
    let mut m = kept_machine(&[0x3E, 0x01], true);
    assert_eq!(m.run(100, 1000), Ok(()));
    assert_eq!(m.z80.cycles(), 0);
    assert_eq!(m.z80.reg16(Reg16::PC), 0);
    assert_eq!(m.z80.reg8(Reg8::A), Z80State::new().reg8(Reg8::A));
}

#[test]
fn a_nonmaskable_interrupt_is_told_to_the_inbox() {
    let mut m = kept_machine(&[0x00], false);
    m.io.irq.pause_interrupt.pause_pressed(true);
    assert_eq!(m.run(1, 1000), Ok(()));
    assert_eq!(m.inbox.memos, vec![Z80Memo::NonmaskableInterrupt]);
    assert_eq!(m.z80.reg16(Reg16::PC), 0x66);
    assert_eq!(m.z80.cycles(), 11);
}
