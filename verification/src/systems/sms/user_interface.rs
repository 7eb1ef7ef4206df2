//! What a user interface keeps around a running machine: the recording
//! under way and the messages waiting for the user.
use vstd::prelude::*;
use crate::hardware::sms_player_input::SmsPlayerInput;
use crate::host_multimedia::{SimpleAudio, SimpleGraphics};
use super::emulator::{spec_is_state_of, SmsEmulationError, SmsS, SmsState};
use super::frame::{run_frame, spec_run_frame};
use super::help::RecordingStatus;

verus! {

/// A message for the user: news of something done, an error, or an error
/// that ends the emulation.
#[derive(Clone, Debug, PartialEq, Eq)]
pub enum UserMessage {
    Success(String),
    Error(String),
    Fatal(String),
}

/// A running machine, where its states and recordings are saved, the
/// recording under way, and the messages not yet shown to the user.
pub struct UiStatus<G, A> {
    master_system: Box<SmsS<G, A>>,
    save_directory: Option<String>,
    recording_status: RecordingStatus<SmsState>,
    messages: Vec<UserMessage>,
}

impl<G: SimpleGraphics, A: SimpleAudio> UiStatus<G, A> {
    pub closed spec fn spec_master_system(&self) -> SmsS<G, A> {
        *self.master_system
    }

    pub closed spec fn spec_save_directory(&self) -> Option<String> {
        self.save_directory
    }

    /// The recording under way: the state it began with and the player
    /// input of each frame since.
    pub closed spec fn spec_recording(&self) -> Option<(SmsState, Seq<SmsPlayerInput>)> {
        self.recording_status@
    }

    /// The messages not yet taken, oldest first.
    pub closed spec fn spec_messages(&self) -> Seq<UserMessage> {
        self.messages@
    }

    /// A machine with no recording under way and no messages.
    pub fn new(master_system: Box<SmsS<G, A>>, save_directory: Option<String>) -> (r: Self)
        ensures
            r.spec_master_system() == *master_system,
            r.spec_save_directory() == save_directory,
            r.spec_recording() == None::<(SmsState, Seq<SmsPlayerInput>)>,
            r.spec_messages() == Seq::<UserMessage>::empty(),
    {
        UiStatus {
            master_system,
            save_directory,
            recording_status: RecordingStatus::default(),
            messages: Vec::new(),
        }
    }

    pub fn master_system(&self) -> (r: &SmsS<G, A>)
        ensures
            *r == self.spec_master_system(),
    {
        &self.master_system
    }

    pub fn master_system_mut(&mut self) -> (r: &mut SmsS<G, A>)
        ensures
            *r == old(self).spec_master_system(),
            final(self).spec_master_system() == *final(r),
            final(self).spec_save_directory() == old(self).spec_save_directory(),
            final(self).spec_recording() == old(self).spec_recording(),
            final(self).spec_messages() == old(self).spec_messages(),
    {
        &mut self.master_system
    }

    pub fn master_system_own(self) -> (r: Box<SmsS<G, A>>)
        ensures
            *r == self.spec_master_system(),
    {
        self.master_system
    }

    /// Take the messages waiting for the user, oldest first; none are left.
    pub fn messages(&mut self) -> (r: Vec<UserMessage>)
        ensures
            r@ == old(self).spec_messages(),
            final(self).spec_messages() == Seq::<UserMessage>::empty(),
            final(self).spec_master_system() == old(self).spec_master_system(),
            final(self).spec_save_directory() == old(self).spec_save_directory(),
            final(self).spec_recording() == old(self).spec_recording(),
    {
        let mut taken: Vec<UserMessage> = Vec::new();
        std::mem::swap(&mut taken, &mut self.messages);
        taken
    }

    /// Start recording from the machine's state now, dropping any recording
    /// under way, and tell the user.
    pub fn begin_recording(&mut self)
        ensures
            final(self).spec_recording() matches Some((s, v)) && v.len() == 0 && spec_is_state_of(
                s,
                old(self).spec_master_system(),
            ),
            final(self).spec_messages().len() == old(self).spec_messages().len() + 1,
            final(self).spec_messages().drop_last() == old(self).spec_messages(),
            final(self).spec_messages().last() matches UserMessage::Success(m) && m@
                == "Started recording"@,
            final(self).spec_master_system() == old(self).spec_master_system(),
            final(self).spec_save_directory() == old(self).spec_save_directory(),
    {
        let state = self.master_system.state();
        self.recording_status.begin_recording(state);
        let m = "Started recording".to_owned();
        self.messages.push(UserMessage::Success(m));
    }

    /// Stop recording, and tell the user.
    pub fn end_recording(&mut self)
        ensures
            final(self).spec_recording() == None::<(SmsState, Seq<SmsPlayerInput>)>,
            final(self).spec_messages().len() == old(self).spec_messages().len() + 1,
            final(self).spec_messages().drop_last() == old(self).spec_messages(),
            final(self).spec_messages().last() matches UserMessage::Success(m) && m@
                == "Ended recording"@,
            final(self).spec_master_system() == old(self).spec_master_system(),
            final(self).spec_save_directory() == old(self).spec_save_directory(),
    {
        self.recording_status.end_recording();
        let m = "Ended recording".to_owned();
        self.messages.push(UserMessage::Success(m));
    }

    /// The recording under way (if any) gains `player_input`, then the
    /// machine emulates a frame with it: see `run_frame`.
    pub fn run_frame(self, player_input: SmsPlayerInput) -> (r: (
        Self,
        Result<Option<(u64, u64)>, SmsEmulationError>,
    ))
        requires
            self.spec_master_system().time_status.frequency is Some ==> 0
                < self.spec_master_system().audio.spec_buffer_len() <= 0xFFFF,
        ensures
            r.0.spec_recording() == match self.spec_recording() {
                None => None,
                Some((s, v)) => Some((s, v.push(player_input))),
            },
            r.0.spec_messages() == self.spec_messages(),
            r.0.spec_save_directory() == self.spec_save_directory(),
            match r.1 {
                Ok(x) => spec_run_frame(self.spec_master_system(), player_input) == Ok::<
                    (SmsS<G, A>, Option<(u64, u64)>),
                    SmsEmulationError,
                >((r.0.spec_master_system(), x)),
                Err(_) => true,
            },
            spec_run_frame(self.spec_master_system(), player_input) is Err ==> r.1 is Err,
    {
        let UiStatus { master_system, save_directory, recording_status, messages } = self;
        let mut recording_status = recording_status;
        recording_status.update(player_input);
        let (ms, r) = run_frame(*master_system, player_input);
        (UiStatus { master_system: Box::new(ms), save_directory, recording_status, messages }, r)
    }
}

/// What a host's user interface does before each frame: it reads the
/// player's controls, and acts on the user's requests through the status
/// (saving states, recording, showing messages).
pub trait UiHelper<G, A> {
    /// The player's controls for the next frame; `None` ends the emulation.
    fn frame_update(&mut self, ui: &mut UiStatus<G, A>) -> Result<Option<SmsPlayerInput>, SmsEmulationError>;
}

/// How a round of the user interface ended.
#[derive(Clone, Copy, Debug, PartialEq, Eq)]
pub enum UiRound {
    /// The helper ended the emulation.
    Ended,
    /// A frame was emulated; when the machine runs in real time, the Z80
    /// cycles at its end and the clock frequency, for the host to wait.
    Frame(Option<(u64, u64)>),
}

/// A user interface: the status around a running machine, and the host's
/// helper that reads the controls.
pub struct Ui<G, A, H> {
    status: UiStatus<G, A>,
    helper: H,
}

impl<G: SimpleGraphics, A: SimpleAudio, H: UiHelper<G, A>> Ui<G, A, H> {
    pub closed spec fn spec_status(&self) -> UiStatus<G, A> {
        self.status
    }

    pub closed spec fn spec_helper(&self) -> H {
        self.helper
    }

    /// A user interface around `master_system`, with no recording under
    /// way and no messages.
    pub fn new(master_system: Box<SmsS<G, A>>, helper: H, save_directory: Option<String>) -> (r: Self)
        ensures
            r.spec_status().spec_master_system() == *master_system,
            r.spec_status().spec_save_directory() == save_directory,
            r.spec_status().spec_recording() == None::<(SmsState, Seq<SmsPlayerInput>)>,
            r.spec_status().spec_messages() == Seq::<UserMessage>::empty(),
            r.spec_helper() == helper,
    {
        Ui { status: UiStatus::new(master_system, save_directory), helper }
    }

    pub fn master_system(&self) -> (r: &SmsS<G, A>)
        ensures
            *r == self.spec_status().spec_master_system(),
    {
        self.status.master_system()
    }

    pub fn master_system_mut(&mut self) -> (r: &mut SmsS<G, A>)
        ensures
            *r == old(self).spec_status().spec_master_system(),
            final(self).spec_status().spec_master_system() == *final(r),
            final(self).spec_status().spec_save_directory() == old(self).spec_status().spec_save_directory(),
            final(self).spec_status().spec_recording() == old(self).spec_status().spec_recording(),
            final(self).spec_status().spec_messages() == old(self).spec_status().spec_messages(),
            final(self).spec_helper() == old(self).spec_helper(),
    {
        self.status.master_system_mut()
    }

    pub fn master_system_own(self) -> (r: Box<SmsS<G, A>>)
        ensures
            *r == self.spec_status().spec_master_system(),
    {
        self.status.master_system_own()
    }

    /// One round of the user interface's loop: the helper's update; then,
    /// unless it ends the emulation or fails, the recording under way gains
    /// the controls it gave and a frame is emulated with them, from the
    /// status the helper left. A sound device whose buffer does not hold 1
    /// to 65535 samples cannot take the sound of a frame in real time: that
    /// is an `AudioError`, with no frame emulated.
    pub fn round(self) -> (r: (Self, Result<UiRound, SmsEmulationError>))
        ensures
            r.1 matches Ok(UiRound::Frame(x)) ==> exists|mid: UiStatus<G, A>, input: SmsPlayerInput|
                {
                    &&& spec_run_frame(mid.spec_master_system(), input) == Ok::<
                        (SmsS<G, A>, Option<(u64, u64)>),
                        SmsEmulationError,
                    >((r.0.spec_status().spec_master_system(), x))
                    &&& #[trigger] r.0.spec_status().spec_recording() == match mid.spec_recording() {
                        None => None,
                        Some((s, v)) => Some((s, v.push(input))),
                    }
                    &&& r.0.spec_status().spec_messages() == mid.spec_messages()
                    &&& r.0.spec_status().spec_save_directory() == mid.spec_save_directory()
                },
    {
        let Ui { status, helper } = self;
        let mut status = status;
        let mut helper = helper;
        let input = match helper.frame_update(&mut status) {
            Err(e) => {
                return (Ui { status, helper }, Err(e));
            },
            Ok(None) => {
                return (Ui { status, helper }, Ok(UiRound::Ended));
            },
            Ok(Some(input)) => input,
        };
        if status.master_system().time_status.frequency.is_some() {
            let len = status.master_system().audio.buffer_len();
            if len == 0 || len > 0xFFFF {
                let m = "the sound device's buffer must hold 1 to 65535 samples".to_owned();
                return (Ui { status, helper }, Err(SmsEmulationError::AudioError(m)));
            }
        }
        let (status, r) = status.run_frame(input);
        match r {
            Ok(x) => (Ui { status, helper }, Ok(UiRound::Frame(x))),
            Err(e) => (Ui { status, helper }, Err(e)),
        }
    }
}

} // verus!
