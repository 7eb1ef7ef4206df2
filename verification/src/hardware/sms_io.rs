//! The IO system of the Sega Master System, and the interrupt lines that the
//! VDP and the pause button drive.
use vstd::prelude::*;
use super::io16::Io16;
use super::sms_irq::SmsPauseInterruptState;
use super::sms_player_input::SmsPlayerInput;
use super::sms_vdp::{Kind, SmsVdpState};
use super::sn76489::Sn76489Interface;
use super::z80::run::Z80Irq;

verus! {

/// The interrupt lines of the Master System: the VDP requests maskable
/// interrupts (always with data byte 0xFF), the pause button the
/// nonmaskable one.
#[derive(Clone, Copy, Debug, PartialEq, Eq)]
pub struct SmsZ80IrqImpler {
    pub vdp: SmsVdpState,
    pub pause_interrupt: SmsPauseInterruptState,
}

impl Z80Irq for SmsZ80IrqImpler {
    open spec fn spec_requesting_mi(&self) -> Option<u8> {
        if self.vdp.spec_requesting_interrupt() {
            Some(0xFF)
        } else {
            None
        }
    }

    open spec fn spec_requesting_nmi(&self) -> bool {
        self.pause_interrupt == SmsPauseInterruptState::InterruptNeeded
    }

    open spec fn spec_take_nmi(&self) -> Self {
        SmsZ80IrqImpler { pause_interrupt: SmsPauseInterruptState::InterruptTaken, ..*self }
    }

    fn requesting_mi(&mut self) -> (r: Option<u8>) {
        if self.vdp.requesting_interrupt() {
            Some(0xFF)
        } else {
            None
        }
    }

    fn requesting_nmi(&mut self) -> (r: bool) {
        self.pause_interrupt == SmsPauseInterruptState::InterruptNeeded
    }

    fn take_nmi(&mut self) {
        self.pause_interrupt = SmsPauseInterruptState::InterruptTaken;
    }
}

/// The IO ports of the Master System. The VDP is reached through `irq`,
/// since it also drives the interrupt lines.
pub struct SmsIo16Impler<S> {
    pub irq: SmsZ80IrqImpler,
    pub sn76489: S,
    pub player_input: SmsPlayerInput,
}

/// The port an address selects: only bits 7, 6 and 0 are decoded.
pub open spec fn port(address: u16) -> u8 {
    (address & 0b11000001) as u8
}

/// The byte port 0 gives: on the Game Gear the pause button (bit 7 clear
/// while pressed), elsewhere 0xFF.
pub open spec fn spec_port0(kind: Kind, pause: bool) -> u8 {
    match kind {
        Kind::Gg => if pause { 0 } else { 0x80 },
        _ => 0xFF,
    }
}

impl<S: Sn76489Interface> SmsIo16Impler<S> {
    pub open spec fn with_vdp(self, vdp: SmsVdpState) -> Self {
        SmsIo16Impler { irq: SmsZ80IrqImpler { vdp, ..self.irq }, ..self }
    }
}

impl<S: Sn76489Interface> Io16 for SmsIo16Impler<S> {
    open spec fn spec_input(&self, address: u16) -> u8 {
        let p = port(address);
        let vdp = self.irq.vdp;
        if p == 0 {
            spec_port0(vdp.kind, self.player_input.spec_pause())
        } else if p == 1 {
            0xFF
        } else if p == 0x40 {
            vdp.spec_read_v()
        } else if p == 0x41 {
            (vdp.h as int / 2 % 256) as u8
        } else if p == 0x80 {
            vdp.data_buffer
        } else if p == 0x81 {
            vdp.status_flags
        } else if p == 0xC0 {
            self.player_input.spec_joypad_a()
        } else {
            self.player_input.spec_joypad_b()
        }
    }

    open spec fn spec_after_input(&self, address: u16) -> Self {
        let p = port(address);
        let vdp = self.irq.vdp;
        if p == 0x80 {
            self.with_vdp(vdp.spec_read_data())
        } else if p == 0x81 {
            self.with_vdp(
                SmsVdpState {
                    status_flags: 0,
                    control_flag: false,
                    line_interrupt_pending: false,
                    ..vdp
                },
            )
        } else {
            *self
        }
    }

    open spec fn spec_output(&self, address: u16, value: u8) -> Self {
        let p = port(address);
        let vdp = self.irq.vdp;
        if p == 0x40 || p == 0x41 {
            SmsIo16Impler { sn76489: self.sn76489.spec_write(value), ..*self }
        } else if p == 0x80 {
            self.with_vdp(vdp.spec_write_data(value))
        } else if p == 0x81 {
            self.with_vdp(vdp.spec_write_control(value))
        } else {
            *self
        }
    }

    fn input(&mut self, address: u16) -> (r: u8) {
        let masked = (address & 0b11000001) as u8;
        assert(masked == 0 || masked == 1 || masked == 0x40 || masked == 0x41 || masked == 0x80
            || masked == 0x81 || masked == 0xC0 || masked == 0xC1) by (bit_vector)
            requires
                masked == (address & 0b11000001) as u8,
        ;
        if masked == 0 {
            match (self.irq.vdp.kind, self.player_input.pause()) {
                (Kind::Gg, true) => 0,
                (Kind::Gg, false) => 0x80,
                _ => 0xFF,
            }
        } else if masked == 1 {
            0xFF
        } else if masked == 0x40 {
            self.irq.vdp.read_v()
        } else if masked == 0x41 {
            self.irq.vdp.read_h()
        } else if masked == 0x80 {
            self.irq.vdp.read_data()
        } else if masked == 0x81 {
            self.irq.vdp.read_control()
        } else if masked == 0xC0 {
            self.player_input.joypad_a()
        } else {
            self.player_input.joypad_b()
        }
    }

    fn output(&mut self, address: u16, value: u8) {
        let masked = (address & 0b11000001) as u8;
        if masked == 0x40 || masked == 0x41 {
            self.sn76489.write(value);
        } else if masked == 0x80 {
            self.irq.vdp.write_data(value);
        } else if masked == 0x81 {
            self.irq.vdp.write_control(value);
        }
    }
}

impl<S> Z80Irq for SmsIo16Impler<S> {
    open spec fn spec_requesting_mi(&self) -> Option<u8> {
        self.irq.spec_requesting_mi()
    }

    open spec fn spec_requesting_nmi(&self) -> bool {
        self.irq.spec_requesting_nmi()
    }

    open spec fn spec_take_nmi(&self) -> Self {
        SmsIo16Impler { irq: self.irq.spec_take_nmi(), ..*self }
    }

    fn requesting_mi(&mut self) -> (r: Option<u8>) {
        self.irq.requesting_mi()
    }

    fn requesting_nmi(&mut self) -> (r: bool) {
        self.irq.requesting_nmi()
    }

    fn take_nmi(&mut self) {
        self.irq.take_nmi();
    }
}

/// The Master System's ports: reading 0x7E gives the V counter, 0x7F the H
/// counter, 0xBE the VDP's data buffer (and reads VRAM on), 0xBF the VDP's
/// status (and clears it), 0xDC and 0xDD the joypads; writing 0x7F goes to
/// the sound chip, 0xBE to the VDP's data port, 0xBF to its control port.
/// Every address stands for the port that agrees with it in bits 7, 6 and 0.
pub proof fn lemma_ports<S: Sn76489Interface>(io: SmsIo16Impler<S>, address: u16, value: u8)
    ensures
        io.spec_input(0x7E) == io.irq.vdp.spec_read_v(),
        io.spec_input(0x7F) as int == (io.irq.vdp.h as int / 2) % 256,
        io.spec_input(0xBE) == io.irq.vdp.data_buffer,
        io.spec_after_input(0xBE) == io.with_vdp(io.irq.vdp.spec_read_data()),
        io.spec_input(0xBF) == io.irq.vdp.status_flags,
        io.spec_after_input(0xBF).irq.vdp.status_flags == 0,
        io.spec_input(0xDC) == io.player_input.spec_joypad_a(),
        io.spec_input(0xDD) == io.player_input.spec_joypad_b(),
        io.spec_output(0x7F, value) == (SmsIo16Impler { sn76489: io.sn76489.spec_write(value), ..io }),
        io.spec_output(0xBE, value) == io.with_vdp(io.irq.vdp.spec_write_data(value)),
        io.spec_output(0xBF, value) == io.with_vdp(io.irq.vdp.spec_write_control(value)),
        io.spec_input(address) == io.spec_input(address & 0xC1),
        io.spec_output(address, value) == io.spec_output(address & 0xC1, value),
{
    assert(port(0x7E) == 0x40 && port(0x7F) == 0x41 && port(0xBE) == 0x80 && port(0xBF) == 0x81
        && port(0xDC) == 0xC0 && port(0xDD) == 0xC1) by (bit_vector);
    assert(port(address) == port(address & 0xC1)) by (bit_vector);
}

} // verus!
