use lib::hardware::sms_memory::{SmsMemoryLoadError, SmsMemoryMapper};
use lib::hardware::sms_vdp::{Kind, TvSystem};
use lib::host_multimedia::{FakeGraphics, SimpleAudio};
use lib::systems::sms::user_interface::{Ui, UiHelper, UiRound, UiStatus, UserMessage};
use lib::systems::sms::frame::run_frame;
use lib::hardware::sms_player_input::SmsPlayerInput;
use lib::hardware::sms_irq::SmsPauseInterruptState;
use lib::systems::sms::emulator::{
    new_sms, SmsCreationError, SmsEmulationError, SmsState, NTSC_Z80_FREQUENCY,
};

/// A sound device that notes how it is set up.
#[derive(Debug, Default)]
struct Device {
    configured: Option<(u32, u16)>,
    playing: bool,
    fail: bool,
    len: usize,
    queued: usize,
    refuse: bool,
}

// The spec functions of the trait are for the verifier alone; nothing calls
// them at run time.
impl SimpleAudio for Device {
    fn spec_buffer_len(&self) -> usize {
        unreachable!()
    }
    fn spec_buffer_set(&self, _i: usize, _value: i16) -> Self {
        unreachable!()
    }
    fn spec_queue_buffer(&self) -> Self {
        unreachable!()
    }
    fn spec_configure(&self, _frequency: u32, _buffer_size: u16) -> Self {
        unreachable!()
    }
    fn spec_play(&self) -> Self {
        unreachable!()
    }
    fn spec_pause(&self) -> Self {
        unreachable!()
    }
    fn configure(&mut self, frequency: u32, buffer_size: u16) -> Result<(), String> {
        if self.fail {
            return Err("no sound here".to_string());
        }
        self.configured = Some((frequency, buffer_size));
        Ok(())
    }
    fn play(&mut self) -> Result<(), String> {
        self.playing = true;
        Ok(())
    }
    fn pause(&mut self) -> Result<(), String> {
        self.playing = false;
        Ok(())
    }
    fn buffer_len(&self) -> usize {
        self.len
    }
    fn buffer_set(&mut self, _i: usize, _value: i16) {}
    fn queue_buffer(&mut self) -> Result<(), String> {
        if self.refuse {
            return Err("device gone".to_string());
        }
        self.queued += 1;
        Ok(())
    }
    fn clear(&mut self) -> Result<(), String> {
        Ok(())
    }
}

fn rom(pages: usize) -> Vec<u8> {
    let mut v = vec![0u8; pages * 0x4000];
    for p in 0..pages {
        v[p * 0x4000] = p as u8;
    }
    v
}

#[test]
fn a_new_machine_resumes_with_sound() {
    let state = SmsState::from_rom(rom(4), SmsMemoryMapper::Sega, TvSystem::Ntsc, Kind::Sms);
    let mut sms = new_sms(Some(NTSC_Z80_FREQUENCY), state, FakeGraphics(0, 0), Device::default())
        .unwrap();
    assert!(!sms.time_status.holding);
    assert!(sms.hold().is_ok());
    assert!(sms.time_status.holding);
    assert!(sms.resume().is_ok());
    assert!(!sms.time_status.holding);
    assert_eq!(sms.audio.configured, Some((NTSC_Z80_FREQUENCY as u32 / 16, 0x800)));
    assert!(sms.audio.playing);
    let saved = sms.state();
    assert_eq!(saved.memory.rom, rom(4));
    assert_eq!(saved.z80, sms.z80);
}

#[test]
fn an_unlimited_machine_pauses_its_sound() {
    let state = SmsState::from_rom(rom(2), SmsMemoryMapper::Sega, TvSystem::Ntsc, Kind::Sms);
    let mut device = Device::default();
    device.playing = true;
    let mut sms = new_sms(None, state, FakeGraphics(0, 0), device).unwrap();
    assert!(sms.resume().is_ok());
    assert!(!sms.audio.playing);
    assert_eq!(sms.audio.configured, None);
}

#[test]
fn a_sound_error_is_an_audio_error() {
    let state = SmsState::from_rom(rom(2), SmsMemoryMapper::Sega, TvSystem::Ntsc, Kind::Sms);
    let mut device = Device::default();
    device.fail = true;
    let mut sms = new_sms(Some(1000), state, FakeGraphics(0, 0), device).unwrap();
    match sms.resume() {
        Err(SmsEmulationError::AudioError(s)) => assert_eq!(s, "no sound here"),
        _ => panic!("expected an audio error"),
    }
}

#[test]
fn a_machine_needs_a_valid_rom() {
    let state = SmsState::from_rom(Vec::new(), SmsMemoryMapper::Sega, TvSystem::Ntsc, Kind::Sms);
    match new_sms(None, state, FakeGraphics(0, 0), Device::default()) {
        Err(SmsCreationError::MemoryLoadError(SmsMemoryLoadError::InvalidRomSize(0))) => {}
        _ => panic!("expected a ROM size error"),
    }
}

#[test]
fn recording_from_the_user_interface_keeps_the_state_and_tells_the_user() {
    let state = SmsState::from_rom(rom(2), SmsMemoryMapper::Sega, TvSystem::Ntsc, Kind::Sms);
    let sms = new_sms(None, state, FakeGraphics(0, 0), Device::default()).unwrap();
    let mut ui = UiStatus::new(Box::new(sms), None);
    assert!(ui.messages().is_empty());
    ui.master_system_mut().z80.set_cycles(1234);
    ui.begin_recording();
    ui.end_recording();
    assert_eq!(
        ui.messages(),
        vec![
            UserMessage::Success("Started recording".to_string()),
            UserMessage::Success("Ended recording".to_string()),
        ]
    );
    assert!(ui.messages().is_empty());
    assert_eq!(ui.master_system().z80.cycles(), 1234);
    let sms = ui.master_system_own();
    assert_eq!(sms.state().memory.rom, rom(2));
}

#[test]
fn a_frame_runs_every_line_of_the_frame() {
    let state = SmsState::from_rom(rom(2), SmsMemoryMapper::Sega, TvSystem::Ntsc, Kind::Sms);
    let sms = new_sms(None, state, FakeGraphics(0, 0), Device::default()).unwrap();
    let (sms, r) = run_frame(sms, SmsPlayerInput::new());
    assert!(matches!(r, Ok(None)));
    // 262 lines of 342 VDP cycles; the Z80 runs to two thirds of them
    assert_eq!(sms.vdp.cycles, 262 * 342);
    assert_eq!(sms.vdp.v, 0);
    assert!(sms.z80.cycles() >= 2 * 262 * 342 / 3);
    assert!(sms.z80.cycles() < 2 * 262 * 342 / 3 + 4);
    // the frame interrupt flag was raised after the active display
    assert_ne!(sms.vdp.status_flags & 0x80, 0);
    // the next frame takes as long again
    let (sms, r) = run_frame(sms, SmsPlayerInput::new());
    assert!(matches!(r, Ok(None)));
    assert_eq!(sms.vdp.cycles, 2 * 262 * 342);
}

#[test]
fn a_pal_frame_has_313_lines() {
    let state = SmsState::from_rom(rom(2), SmsMemoryMapper::Sega, TvSystem::Pal, Kind::Sms);
    let sms = new_sms(None, state, FakeGraphics(0, 0), Device::default()).unwrap();
    let (sms, r) = run_frame(sms, SmsPlayerInput::new());
    assert!(matches!(r, Ok(None)));
    assert_eq!(sms.vdp.cycles, 313 * 342);
}

#[test]
fn a_real_time_frame_makes_its_sound_and_says_when_it_ends() {
    let state = SmsState::from_rom(rom(2), SmsMemoryMapper::Sega, TvSystem::Ntsc, Kind::Sms);
    let device = Device { len: 0x800, ..Device::default() };
    let sms = new_sms(Some(NTSC_Z80_FREQUENCY), state, FakeGraphics(0, 0), device).unwrap();
    let (sms, r) = run_frame(sms, SmsPlayerInput::new());
    assert!(matches!(r, Ok(Some((59736, NTSC_Z80_FREQUENCY)))));
    // a sixteenth of the Z80's cycles, in buffers of 0x800 samples
    assert_eq!(sms.audio.queued, 2);
    assert_eq!(sms.sn76489.cycles, 0x1000);
}

#[test]
fn a_refused_buffer_stops_the_frame_with_an_audio_error() {
    let state = SmsState::from_rom(rom(2), SmsMemoryMapper::Sega, TvSystem::Ntsc, Kind::Sms);
    let device = Device { len: 0x800, refuse: true, ..Device::default() };
    let sms = new_sms(Some(NTSC_Z80_FREQUENCY), state, FakeGraphics(0, 0), device).unwrap();
    let (sms, r) = run_frame(sms, SmsPlayerInput::new());
    assert!(matches!(r, Err(SmsEmulationError::AudioError(_))));
    assert_eq!(sms.vdp.v, 0);
    assert_eq!(sms.audio.queued, 0);
}

#[test]
fn pressing_pause_interrupts_the_z80() {
    let state = SmsState::from_rom(rom(2), SmsMemoryMapper::Sega, TvSystem::Ntsc, Kind::Sms);
    let sms = new_sms(None, state, FakeGraphics(0, 0), Device::default()).unwrap();
    let mut input = SmsPlayerInput::new();
    input.set_pause(true);
    let (sms, r) = run_frame(sms, input);
    assert!(matches!(r, Ok(None)));
    assert_eq!(sms.pause_irq, SmsPauseInterruptState::InterruptTaken);
    assert!(sms.player_input.pause());
}

/// Nothing pressed for two frames, then the end.
struct TwoFrames(u8);

impl UiHelper<FakeGraphics, Device> for TwoFrames {
    fn frame_update(
        &mut self,
        _ui: &mut UiStatus<FakeGraphics, Device>,
    ) -> Result<Option<SmsPlayerInput>, SmsEmulationError> {
        if self.0 == 2 {
            return Ok(None);
        }
        self.0 += 1;
        Ok(Some(SmsPlayerInput::new()))
    }
}

#[test]
fn the_user_interface_runs_frames_until_its_helper_ends() {
    let state = SmsState::from_rom(rom(2), SmsMemoryMapper::Sega, TvSystem::Ntsc, Kind::Sms);
    let sms = new_sms(None, state, FakeGraphics(0, 0), Device::default()).unwrap();
    let mut ui = Ui::new(Box::new(sms), TwoFrames(0), None);
    let (next, r) = ui.round();
    ui = next;
    assert!(matches!(r, Ok(UiRound::Frame(None))));
    let (next, r) = ui.round();
    ui = next;
    assert!(matches!(r, Ok(UiRound::Frame(None))));
    let (next, r) = ui.round();
    ui = next;
    assert!(matches!(r, Ok(UiRound::Ended)));
    assert_eq!(ui.master_system().vdp.cycles, 2 * 262 * 342);
}
