//! The state of a whole Master System, and the errors of emulating one.
use vstd::prelude::*;
use std::time::Instant;
use crate::hardware::sms_irq::SmsPauseInterruptState;
use crate::hardware::sms_memory::{
    default_mappings, spec_default_mappings, zero_page, MainCartridgeRam, MemoryPage,
    SmsMemoryLoadError,
    SmsMemoryMapper, SmsMemoryState,
};
use crate::hardware::sms_player_input::SmsPlayerInput;
use crate::hardware::sms_roms::SmsRomError;
use crate::hardware::sms_vdp::graphics::SmsVdpGraphicsError;
use crate::hardware::sms_vdp::{Kind, SmsVdpState, TvSystem};
use crate::hardware::sn76489::Sn76489State;
use crate::hardware::z80::internal::{Reg16, Z80State};
use crate::host_multimedia::{SimpleAudio, SimpleGraphics};

verus! {

/// The Z80's clock in NTSC machines: a third of the master clock.
pub const NTSC_Z80_FREQUENCY: u64 = 3579526;

/// The Z80's clock in PAL machines: a third of the master clock.
pub const PAL_Z80_FREQUENCY: u64 = 3546895;

/// Everything about a Master System that is saved and restored.
pub struct SmsState {
    pub z80: Z80State,
    pub vdp: SmsVdpState,
    pub memory: SmsMemoryState,
    pub player_input: SmsPlayerInput,
    pub pause_irq: SmsPauseInterruptState,
    pub sn76489: Sn76489State,
}

impl SmsState {
    /// A machine just switched on with the cartridge `rom`: the memory
    /// mapped as its mapper has it after reset, the Z80 reset with the stack
    /// pointer at 0xDFEE (where many BIOSes leave it), and the VDP of `vdp_kind`
    /// for `tv_system`.
    pub fn from_rom(rom: Vec<u8>, mapper: SmsMemoryMapper, tv_system: TvSystem, vdp_kind: Kind) -> (r:
        SmsState)
        requires
            match mapper {
                SmsMemoryMapper::Sg1000(x) => x * 0x400 <= usize::MAX,
                _ => true,
            },
        ensures
            r.memory == spec_default_mappings(
                SmsMemoryState {
                    rom,
                    system_ram: Box::new(zero_page()),
                    system_ram_len: 0,
                    main_cartridge_ram: MainCartridgeRam::Zero,
                    half_cartridge_ram: None,
                    pages: [MemoryPage::Rom(0), MemoryPage::Rom(0), MemoryPage::Rom(0), MemoryPage::Rom(0)],
                    mapper,
                },
            ),
            r.z80 == Z80State::spec_default().with_r16(Reg16::SP, 0xDFEE),
            r.vdp.kind == vdp_kind,
            r.vdp.tv_system == tv_system,
            r.vdp.v == 0,
            r.vdp.cycles == 0,
            r.pause_irq == SmsPauseInterruptState::Free,
            r.player_input.spec_joypad_a() == 0xFF,
            r.player_input.spec_joypad_b() == 0xFF,
            !r.player_input.spec_pause(),
    {
        let mut memory = SmsMemoryState {
            rom,
            system_ram: Box::new([0u8; 0x4000]),
            system_ram_len: 0,
            main_cartridge_ram: MainCartridgeRam::Zero,
            half_cartridge_ram: None,
            pages: [MemoryPage::Rom(0), MemoryPage::Rom(0), MemoryPage::Rom(0), MemoryPage::Rom(0)],
            mapper,
        };
        let ghost initial = memory;
        default_mappings(&mut memory);
        let mut z80 = Z80State::new();
        z80.set_reg16(Reg16::SP, 0xDFEE);
        let state = SmsState {
            z80,
            vdp: SmsVdpState::new(vdp_kind, tv_system),
            memory,
            player_input: SmsPlayerInput::new(),
            pause_irq: SmsPauseInterruptState::default(),
            sn76489: Sn76489State::new(),
        };
        state
    }
}

/// `std::time::Instant`, a point in time of the host's clock, carried
/// through as an opaque value.
#[verifier::external_type_specification]
#[verifier::external_body]
pub struct ExInstant(Instant);

/// `std::time::Instant::now`: the time now. Nothing is promised of the
/// value, which depends on the clock.
#[verifier::external_body]
fn now() -> (r: Instant) {
    Instant::now()
}

/// When emulation (re)started, and how fast it should run.
#[derive(Clone, Copy, Debug)]
pub struct TimeStatus {
    /// Any time before now.
    pub start_time: Instant,
    /// How many cycles were on the clock at `start_time`?
    pub start_cycles: u64,
    /// Clock frequency in Hz; `None` runs as fast as possible.
    pub frequency: Option<u64>,
    pub holding: bool,
}

impl TimeStatus {
    /// Start now, with `start_cycles` on the clock.
    pub fn new(start_cycles: u64, frequency: Option<u64>) -> (r: TimeStatus)
        ensures
            r.start_cycles == start_cycles,
            r.frequency == frequency,
            !r.holding,
    {
        TimeStatus { start_cycles, start_time: now(), frequency, holding: false }
    }
}

/// Errors in emulating a frame.
#[derive(Debug)]
pub enum SmsEmulationError {
    SomeError,
    AudioError(String),
    GraphicsError(SmsVdpGraphicsError),
}

/// Errors in setting up an emulator.
#[derive(Debug)]
pub enum SmsCreationError {
    RomError(SmsRomError),
    MemoryLoadError(SmsMemoryLoadError),
}

/// A Master System ready to run: its state, the screen it draws on and the
/// sound device it plays through, and how fast it should run.
pub struct SmsS<G, A> {
    pub z80: Z80State,
    pub vdp: SmsVdpState,
    pub memory: SmsMemoryState,
    pub player_input: SmsPlayerInput,
    pub pause_irq: SmsPauseInterruptState,
    pub graphics: G,
    pub audio: A,
    pub sn76489: Sn76489State,
    pub time_status: TimeStatus,
}

/// A machine from a saved state, drawing on `graphics` and playing through
/// `audio`, to run at `frequency` Hz (`None`: as fast as it can), starting
/// now. The state's memory must pass `check_valid`.
pub fn new_sms<G: SimpleGraphics, A: SimpleAudio>(
    frequency: Option<u64>,
    state: SmsState,
    graphics: G,
    audio: A,
) -> (r: Result<SmsS<G, A>, SmsCreationError>)
    ensures
        match state.memory.spec_check_valid() {
            Some(e) => r matches Err(SmsCreationError::MemoryLoadError(e2)) && e2 == e,
            None => r matches Ok(s) && s.z80 == state.z80 && s.vdp == state.vdp && s.memory
                == state.memory && s.player_input == state.player_input && s.pause_irq
                == state.pause_irq && s.sn76489 == state.sn76489 && s.graphics == graphics
                && s.audio == audio && s.time_status.start_cycles == state.z80.cycles
                && s.time_status.frequency == frequency && !s.time_status.holding,
        },
{
    let time_status = TimeStatus::new(state.z80.cycles(), frequency);
    let memory = match SmsMemoryState::load(state.memory) {
        Ok(m) => m,
        Err(e) => {
            return Err(SmsCreationError::MemoryLoadError(e));
        },
    };
    Ok(
        SmsS {
            z80: state.z80,
            vdp: state.vdp,
            memory,
            player_input: state.player_input,
            pause_irq: state.pause_irq,
            graphics,
            audio,
            sn76489: state.sn76489,
            time_status,
        },
    )
}

/// Is `r` a copy of the state of `sms`?
pub open spec fn spec_is_state_of<G, A>(r: SmsState, sms: SmsS<G, A>) -> bool {
    &&& r.z80 == sms.z80
    &&& r.vdp == sms.vdp
    &&& r.memory.rom@ == sms.memory.rom@
    &&& r.memory.system_ram == sms.memory.system_ram
    &&& r.memory.system_ram_len == sms.memory.system_ram_len
    &&& r.memory.main_cartridge_ram == sms.memory.main_cartridge_ram
    &&& r.memory.half_cartridge_ram == sms.memory.half_cartridge_ram
    &&& r.memory.pages == sms.memory.pages
    &&& r.memory.mapper == sms.memory.mapper
    &&& r.player_input == sms.player_input
    &&& r.pause_irq == sms.pause_irq
    &&& r.sn76489 == sms.sn76489
}

impl<G: SimpleGraphics, A: SimpleAudio> SmsS<G, A> {
    /// A copy of the machine's state.
    pub fn state(&self) -> (r: SmsState)
        ensures
            spec_is_state_of(r, *self),
    {
        SmsState {
            z80: self.z80,
            vdp: self.vdp,
            memory: self.memory.state(),
            player_input: self.player_input,
            pause_irq: self.pause_irq,
            sn76489: self.sn76489,
        }
    }

    /// Stop the clock: the machine is held until `resume`.
    pub fn hold(&mut self) -> (r: Result<(), SmsEmulationError>)
        ensures
            r is Ok,
            *final(self) == (SmsS {
                time_status: TimeStatus { holding: true, ..old(self).time_status },
                ..*old(self)
            }),
    {
        self.time_status.holding = true;
        Ok(())
    }

    /// Start the clock again from now and the cycles the Z80 has run, and
    /// start the sound: at a sixteenth of the clock (as a 32 bit number),
    /// with a buffer of 0x800 samples, or paused when the machine runs as fast
    /// as it can. An error of the sound device is returned as an
    /// `AudioError`.
    pub fn resume(&mut self) -> (r: Result<(), SmsEmulationError>)
        ensures
            final(self).time_status.start_cycles == old(self).z80.cycles,
            final(self).time_status.frequency == old(self).time_status.frequency,
            !final(self).time_status.holding,
            final(self).z80 == old(self).z80,
            final(self).vdp == old(self).vdp,
            final(self).memory == old(self).memory,
            final(self).player_input == old(self).player_input,
            final(self).pause_irq == old(self).pause_irq,
            final(self).graphics == old(self).graphics,
            final(self).sn76489 == old(self).sn76489,
            r is Err ==> r matches Err(SmsEmulationError::AudioError(_)),
            r is Ok ==> final(self).audio == match old(self).time_status.frequency {
                Some(f) => old(self).audio.spec_configure(((f as u32) / 16) as u32, 0x800).spec_play(),
                None => old(self).audio.spec_pause(),
            },
    {
        self.time_status.start_time = now();
        self.time_status.start_cycles = self.z80.cycles();
        self.time_status.holding = false;
        match self.time_status.frequency {
            Some(frequency) => {
                match self.audio.configure(frequency as u32 / 16, 0x800) {
                    Ok(()) => {},
                    Err(s) => {
                        return Err(SmsEmulationError::AudioError(s));
                    },
                }
                match self.audio.play() {
                    Ok(()) => Ok(()),
                    Err(s) => Err(SmsEmulationError::AudioError(s)),
                }
            },
            None => match self.audio.pause() {
                Ok(()) => Ok(()),
                Err(s) => Err(SmsEmulationError::AudioError(s)),
            },
        }
    }
}

} // verus!
