use lib::utilities::cycles_duration;
use lib::systems::sega_master_system::{EmulationResult, Frequency, PlayerStatus, UserMessage};

#[test]
fn z80_frequency_is_a_third_of_the_master_clock() {
    assert_eq!(Frequency::Ntsc.to_z80_frequency(), Some(3579526));
    assert_eq!(Frequency::Pal.to_z80_frequency(), Some(3546895));
    assert_eq!(Frequency::MasterFrequency(300).to_z80_frequency(), Some(100));
    assert_eq!(Frequency::MasterFrequency(301).to_z80_frequency(), Some(100));
    assert_eq!(Frequency::Z80Frequency(1234).to_z80_frequency(), Some(1234));
    assert_eq!(Frequency::Unlimited.to_z80_frequency(), None);
    assert_eq!(Frequency::default(), Frequency::Ntsc);
}

#[test]
fn nothing_is_pressed_at_first() {
    let p = PlayerStatus::default();
    assert_eq!(p, PlayerStatus { joypad_a: 0xFF, joypad_b: 0xFF, pause: false });
    assert_ne!(EmulationResult::FrameCompleted, EmulationResult::FrameInterrupted);
    assert_ne!(UserMessage::Success("a".to_string()), UserMessage::Error("a".to_string()));
}

#[test]
fn cycles_take_seconds_and_nanoseconds() {
    assert_eq!(cycles_duration(3579526 * 2 + 1789763, 3579526), (2, 500_000_000));
    assert_eq!(cycles_duration(1, 3), (0, 333_333_333));
    assert_eq!(cycles_duration(0, 7), (0, 0));
}
