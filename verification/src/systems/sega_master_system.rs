//! The clock and the players' controls of the Master System, as the older
//! emulator front end chooses them.
use vstd::prelude::*;

verus! {

/// The master clock of an NTSC Master System, in Hz.
pub const NTSC_MASTER_FREQUENCY: u64 = 10738580;

/// The master clock of a PAL Master System, in Hz.
pub const PAL_MASTER_FREQUENCY: u64 = 10640685;

/// How fast to run the emulation.
#[derive(Clone, Copy, Debug, PartialEq, Eq, Structural)]
pub enum Frequency {
    Ntsc,
    Pal,
    /// A master clock, in Hz; the Z80 runs at a third of it.
    MasterFrequency(u64),
    /// The Z80's clock, in Hz.
    Z80Frequency(u64),
    /// As fast as the host can.
    Unlimited,
}

impl Frequency {
    pub fn default() -> (r: Frequency)
        ensures
            r == Frequency::Ntsc,
    {
        Frequency::Ntsc
    }

    /// The Z80's clock in Hz, if it is limited.
    pub fn to_z80_frequency(self) -> (r: Option<u64>)
        ensures
            r == match self {
                Frequency::Ntsc => Some((NTSC_MASTER_FREQUENCY / 3) as u64),
                Frequency::Pal => Some((PAL_MASTER_FREQUENCY / 3) as u64),
                Frequency::MasterFrequency(x) => Some((x / 3) as u64),
                Frequency::Z80Frequency(x) => Some(x),
                Frequency::Unlimited => None::<u64>,
            },
    {
        match self {
            Frequency::Ntsc => Some(NTSC_MASTER_FREQUENCY / 3),
            Frequency::Pal => Some(PAL_MASTER_FREQUENCY / 3),
            Frequency::MasterFrequency(x) => Some(x / 3),
            Frequency::Z80Frequency(x) => Some(x),
            Frequency::Unlimited => None,
        }
    }
}

/// The state of the players' controls: the two joypad ports, active low,
/// and the pause button.
#[derive(Clone, Copy, Debug, PartialEq, Eq, Structural)]
pub struct PlayerStatus {
    pub joypad_a: u8,
    pub joypad_b: u8,
    pub pause: bool,
}

impl PlayerStatus {
    /// Nothing pressed.
    pub fn default() -> (r: PlayerStatus)
        ensures
            r == (PlayerStatus { joypad_a: 0xFF, joypad_b: 0xFF, pause: false }),
    {
        PlayerStatus { joypad_a: 0xFF, joypad_b: 0xFF, pause: false }
    }
}

/// How a run of the emulation for a frame ended.
#[derive(Clone, Copy, Debug, PartialEq, Eq, Structural)]
pub enum EmulationResult {
    FrameCompleted,
    FrameInterrupted,
}

/// A message for the user of the front end: news of something done, an
/// error, or an error that ends the emulation.
#[derive(Clone, Debug, PartialEq, Eq)]
pub enum UserMessage {
    Success(String),
    Error(String),
    Fatal(String),
}

} // verus!
