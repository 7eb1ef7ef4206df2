use lib::hardware::sms_player_input::SmsPlayerInput;
use lib::hardware::sms_roms;
use lib::hardware::sms_roms::SmsRomError;
use lib::systems::sms::help::{PlaybackStatus, RecordingStatus};

#[test]
fn format_rejects_empty_and_huge() {
    assert_eq!(sms_roms::format(Vec::new()), Err(SmsRomError::BadLength(0)));
    assert_eq!(sms_roms::format(vec![0u8; 0x400001]), Err(SmsRomError::BadLength(0x400001)));
}

#[test]
fn format_keeps_whole_pages() {
    let rom: Vec<u8> = (0..0x8000u32).map(|i| (i % 251) as u8).collect();
    assert_eq!(sms_roms::format(rom.clone()).unwrap(), rom);
}

#[test]
fn format_strips_header() {
    let mut rom = vec![0xEEu8; 0x200];
    rom.extend((0..0x4000u32).map(|i| (i % 7) as u8));
    let r = sms_roms::format(rom.clone()).unwrap();
    assert_eq!(r.len(), 0x4000);
    assert_eq!(&r[..], &rom[0x200..]);
}

#[test]
fn format_pads_and_mirrors_small_roms() {
    let rom: Vec<u8> = vec![1, 2, 3];
    let r = sms_roms::format(rom).unwrap();
    assert_eq!(r.len(), 0x4000);
    assert_eq!(&r[0..4], &[1, 2, 3, 0]);
    assert_eq!(&r[0x2000..0x2004], &[1, 2, 3, 0]);
    assert_eq!(r[0x1FFF], 0);
}

#[test]
fn format_mirrors_8k_rom() {
    let rom: Vec<u8> = (0..0x2000u32).map(|i| (i % 13) as u8).collect();
    let r = sms_roms::format(rom.clone()).unwrap();
    assert_eq!(&r[..0x2000], &rom[..]);
    assert_eq!(&r[0x2000..], &rom[..]);
}

#[test]
fn format_rejects_odd_lengths() {
    assert_eq!(sms_roms::format(vec![0u8; 0x3000]), Err(SmsRomError::BadLength(0x3000)));
    // a lone header leaves nothing
    assert_eq!(sms_roms::format(vec![0u8; 0x200]), Err(SmsRomError::BadLength(0)));
}

#[test]
fn format_is_idempotent() {
    let once = sms_roms::format(vec![9u8; 0x1234]).unwrap();
    let twice = sms_roms::format(once.clone()).unwrap();
    assert_eq!(once, twice);
    assert_eq!(once.len() % 0x4000, 0);
}

fn input(a: u8) -> SmsPlayerInput {
    let mut p = SmsPlayerInput::new();
    p.set_joypad_a(a);
    p
}

#[test]
fn recording_collects_inputs_in_order() {
    let mut status: RecordingStatus<u32> = RecordingStatus::default();
    status.update(input(1));
    assert!(status.recording().is_none());
    status.begin_recording(77);
    status.update(input(2));
    status.update(input(3));
    let rec = status.recording().unwrap();
    assert_eq!(rec.state, 77);
    assert_eq!(rec.player_statuses, vec![input(2), input(3)]);
    status.end_recording();
    assert!(status.recording().is_none());
}

#[test]
fn playback_gives_back_the_recording() {
    let recorded = vec![input(1), input(2), input(3)];
    let mut playback = PlaybackStatus::from_recorded(&recorded);
    assert_eq!(playback.pop(), Some(input(1)));
    assert_eq!(playback.pop(), Some(input(2)));
    assert_eq!(playback.pop(), Some(input(3)));
    assert_eq!(playback.pop(), None);
}

#[test]
fn playback_can_end_early() {
    let recorded = vec![input(1), input(2)];
    let mut playback = PlaybackStatus::from_recorded(&recorded);
    playback.end_playback();
    assert_eq!(playback.pop(), None);
    let mut empty = PlaybackStatus::default();
    assert_eq!(empty.pop(), None);
}

#[test]
fn playback_stays_over_after_the_last_input() {
    let recorded = vec![input(7)];
    let mut playback = PlaybackStatus::from_recorded(&recorded);
    assert_eq!(playback.pop(), Some(input(7)));
    assert_eq!(playback.pop(), None);
    assert_eq!(playback.pop(), None);
}
