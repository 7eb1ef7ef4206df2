use lib::hardware::io16::Io16;
use lib::hardware::sms_io::{SmsIo16Impler, SmsZ80IrqImpler};
use lib::hardware::sms_irq::SmsPauseInterruptState;
use lib::hardware::sms_player_input::SmsPlayerInput;
use lib::hardware::sms_vdp::{Kind, SmsVdpState, TvSystem};
use lib::hardware::sn76489::{FakeSn76489, Sn76489State};
use lib::hardware::z80::run::Z80Irq;

fn io(kind: Kind) -> SmsIo16Impler<Sn76489State> {
    SmsIo16Impler {
        irq: SmsZ80IrqImpler {
            vdp: SmsVdpState::new(kind, TvSystem::Ntsc),
            pause_interrupt: SmsPauseInterruptState::default(),
        },
        sn76489: Sn76489State::new(),
        player_input: SmsPlayerInput::new(),
    }
}

#[test]
fn vram_write_through_ports() {
    let mut io = io(Kind::Sms);
    // address 0x1234, code 1 (VRAM write)
    io.output(0xBF, 0x34);
    io.output(0xBF, 0x40 | 0x12);
    io.output(0xBE, 0xAB);
    io.output(0xBE, 0xCD);
    assert_eq!(io.irq.vdp.vram[0x1234], 0xAB);
    assert_eq!(io.irq.vdp.vram[0x1235], 0xCD);
    assert_eq!(io.irq.vdp.address(), 0x1236);
}

#[test]
fn vram_reads_are_buffered() {
    let mut io = io(Kind::Sms);
    io.irq.vdp.vram[0x0100] = 5;
    io.irq.vdp.vram[0x0101] = 6;
    io.output(0xBF, 0x00);
    io.output(0xBF, 0x01); // code 0: read setup, prefetches 0x0100
    assert_eq!(io.input(0xBE), 5);
    assert_eq!(io.input(0xBE), 6);
}

#[test]
fn register_write_through_control_port() {
    let mut io = io(Kind::Sms);
    io.output(0xBF, 0x60);
    io.output(0xBF, 0x81); // code 2, register 1
    assert_eq!(io.irq.vdp.register(1), 0x60);
    // register numbers past 10 are ignored
    io.output(0xBF, 0x11);
    io.output(0xBF, 0x8F);
    assert_eq!(io.irq.vdp.register(1), 0x60);
}

#[test]
fn control_read_returns_and_clears_status() {
    let mut io = io(Kind::Sms);
    io.irq.vdp.status_flags = 0x80;
    assert_eq!(io.input(0xBF), 0x80);
    assert_eq!(io.input(0xBF), 0);
}

#[test]
fn joypads_and_port_zero() {
    let mut io = io(Kind::Sms);
    io.player_input.set_joypad_a(0x12);
    io.player_input.set_joypad_b(0x34);
    assert_eq!(io.input(0xDC), 0x12);
    assert_eq!(io.input(0xDD), 0x34);
    // ports are mirrored: only bits 7, 6 and 0 count
    assert_eq!(io.input(0xC0), 0x12);
    assert_eq!(io.input(0x00), 0xFF);
    assert_eq!(io.input(0x01), 0xFF);
    let mut gg = self::io(Kind::Gg);
    assert_eq!(gg.input(0x00), 0x80);
    gg.player_input.set_pause(true);
    assert_eq!(gg.input(0x00), 0);
}

#[test]
fn counters_through_ports() {
    let mut io = io(Kind::Sms);
    io.irq.vdp.v = 0xDB;
    assert_eq!(io.input(0x7E), 0xD5);
    io.irq.vdp.h = 0x101;
    assert_eq!(io.input(0x7F), 0x80);
}

#[test]
fn sound_chip_writes_through_ports() {
    let mut io = io(Kind::Sms);
    io.output(0x7F, 0x9A); // latch channel 0 volume, value 0xA
    assert_eq!(io.sn76489.registers[1], 0xA);
    io.output(0x7F, 0x8F); // latch channel 0 tone, low bits 0xF
    io.output(0x7F, 0x3F); // data: high bits
    assert_eq!(io.sn76489.registers[0], 0x3FF);
}

#[test]
fn interrupt_lines() {
    let mut io = io(Kind::Sms);
    assert_eq!(io.requesting_mi(), None);
    io.irq.vdp.status_flags = 0x80;
    io.irq.vdp.registers[1] = 0x20;
    assert_eq!(io.requesting_mi(), Some(0xFF));
    assert!(!io.requesting_nmi());
    io.irq.pause_interrupt.pause_pressed(true);
    assert!(io.requesting_nmi());
    io.take_nmi();
    assert!(!io.requesting_nmi());
    // holding pause does not ask again
    io.irq.pause_interrupt.pause_pressed(true);
    assert!(!io.requesting_nmi());
    io.irq.pause_interrupt.pause_pressed(false);
    io.irq.pause_interrupt.pause_pressed(true);
    assert!(io.requesting_nmi());
}

#[test]
fn fake_sound_chip_ignores_writes() {
    let mut io = SmsIo16Impler {
        irq: SmsZ80IrqImpler {
            vdp: SmsVdpState::new(Kind::Sms, TvSystem::Pal),
            pause_interrupt: SmsPauseInterruptState::default(),
        },
        sn76489: FakeSn76489,
        player_input: SmsPlayerInput::new(),
    };
    io.output(0x7F, 0x90);
    assert_eq!(io.sn76489, FakeSn76489);
}
