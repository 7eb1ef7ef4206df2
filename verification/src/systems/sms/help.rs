//! Recording gameplay, and playing a recording back.
use vstd::prelude::*;
use crate::hardware::sms_player_input::SmsPlayerInput;

verus! {

/// A saved recording of gameplay, together with the initial state of the
/// Master System. This is what is written when gameplay is saved to a file.
#[derive(Debug)]
pub struct Recording<H> {
    pub state: H,
    pub player_statuses: Vec<SmsPlayerInput>,
}

/// Records gameplay: while a recording is under way, it holds the state the
/// recording began with and the player input of each frame since.
#[derive(Debug)]
pub struct RecordingStatus<S>(Option<Box<Recording<S>>>);

impl<S> View for RecordingStatus<S> {
    type V = Option<(S, Seq<SmsPlayerInput>)>;

    closed spec fn view(&self) -> Option<(S, Seq<SmsPlayerInput>)> {
        match self.0 {
            None => None,
            Some(r) => Some((r.state, r.player_statuses@)),
        }
    }
}

impl<S> RecordingStatus<S> {
    /// No recording under way.
    pub fn default() -> (r: Self)
        ensures
            r@ == None::<(S, Seq<SmsPlayerInput>)>,
    {
        RecordingStatus(None)
    }

    /// Call this every frame, after reading player's status but before
    /// emulating the frame: a recording under way gains `player_status`.
    pub fn update(&mut self, player_status: SmsPlayerInput)
        ensures
            final(self)@ == match old(self)@ {
                None => None,
                Some((s, v)) => Some((s, v.push(player_status))),
            },
    {
        match &mut self.0 {
            Some(recording) => {
                recording.player_statuses.push(player_status);
            },
            None => {},
        }
    }

    /// Start a new recording from `state`, dropping any under way.
    pub fn begin_recording(&mut self, state: S)
        ensures
            final(self)@ == Some((state, Seq::<SmsPlayerInput>::empty())),
    {
        self.0 = Some(Box::new(Recording { state, player_statuses: Vec::with_capacity(256) }));
    }

    pub fn end_recording(&mut self)
        ensures
            final(self)@ == None::<(S, Seq<SmsPlayerInput>)>,
    {
        self.0 = None;
    }

    /// The recording under way, if any.
    pub fn recording(&self) -> (r: Option<&Recording<S>>)
        ensures
            match self@ {
                None => r is None,
                Some((s, v)) => r matches Some(rec) && rec.state == s && rec.player_statuses@ == v,
            },
    {
        match &self.0 {
            None => None,
            Some(r) => Some(&**r),
        }
    }
}

/// What `pop` gives back when `s` is still to be played, and what is then
/// left to play.
pub open spec fn spec_pop(s: Seq<SmsPlayerInput>) -> (Option<SmsPlayerInput>, Seq<SmsPlayerInput>) {
    if s.len() == 0 {
        (None, s)
    } else {
        (Some(s[0]), s.drop_first())
    }
}

/// What `k` calls of `pop` give back, in order, when `s` is still to be
/// played, and what is then left to play.
pub open spec fn spec_pops(s: Seq<SmsPlayerInput>, k: nat) -> (Seq<Option<SmsPlayerInput>>, Seq<SmsPlayerInput>)
    decreases k,
{
    if k == 0 {
        (Seq::empty(), s)
    } else {
        let (r, rest) = spec_pop(s);
        let (rs, left) = spec_pops(rest, (k - 1) as nat);
        (seq![r] + rs, left)
    }
}

/// Playing back the inputs `xs` (what `from_recorded` holds) gives them in
/// the order they were recorded, one per call of `pop`, and `None` on every
/// call after the last one; the same holds of an empty playback, which is
/// what `end_playback` leaves.
pub proof fn lemma_playback_in_order(xs: Seq<SmsPlayerInput>, k: nat)
    ensures
        spec_pops(xs, k).0.len() == k,
        forall|i: int|
            0 <= i < k ==> #[trigger] spec_pops(xs, k).0[i] == (if i < xs.len() {
                Some(xs[i])
            } else {
                None
            }),
        spec_pops(xs, k).1 == (if k <= xs.len() {
            xs.skip(k as int)
        } else {
            Seq::empty()
        }),
    decreases k,
{
    if k > 0 {
        let (r, rest) = spec_pop(xs);
        lemma_playback_in_order(rest, (k - 1) as nat);
        let (rs, left) = spec_pops(rest, (k - 1) as nat);
        assert forall|i: int| 0 <= i < k implies #[trigger] spec_pops(xs, k).0[i] == (if i < xs.len() {
            Some(xs[i])
        } else {
            None
        }) by {
            if i > 0 {
                assert(spec_pops(xs, k).0[i] == rs[i - 1]);
            }
        }
        if 0 < xs.len() && k <= xs.len() {
            assert(rest.skip((k - 1) as int) =~= xs.skip(k as int));
        }
    } else {
        assert(xs.skip(0) =~= xs);
    }
}

/// The player input still to be played back from a recording. It is kept
/// in reverse, so that the next input is at the end.
#[derive(Debug)]
pub struct PlaybackStatus(Vec<SmsPlayerInput>);

impl View for PlaybackStatus {
    type V = Seq<SmsPlayerInput>;

    /// The inputs still to be played, next first.
    closed spec fn view(&self) -> Seq<SmsPlayerInput> {
        self.0@.reverse()
    }
}

impl PlaybackStatus {
    /// Nothing to play back.
    pub fn default() -> (r: PlaybackStatus)
        ensures
            r@ == Seq::<SmsPlayerInput>::empty(),
    {
        PlaybackStatus(Vec::new())
    }

    /// Play back `player_statuses`, in order.
    pub fn from_recorded(player_statuses: &[SmsPlayerInput]) -> (r: PlaybackStatus)
        ensures
            r@ == player_statuses@,
    {
        let mut v: Vec<SmsPlayerInput> = Vec::with_capacity(player_statuses.len());
        let mut i: usize = player_statuses.len();
        while i > 0
            invariant
                i <= player_statuses@.len(),
                v@ == player_statuses@.subrange(i as int, player_statuses@.len() as int).reverse(),
            decreases i,
        {
            i = i - 1;
            v.push(player_statuses[i]);
            assert(v@ =~= player_statuses@.subrange(i as int, player_statuses@.len() as int).reverse());
        }
        assert(player_statuses@.subrange(0, player_statuses@.len() as int) =~= player_statuses@);
        assert(v@.reverse() =~= player_statuses@);
        PlaybackStatus(v)
    }

    /// The next input to play, which is then no longer to be played; `None`
    /// when playback is over.
    pub fn pop(&mut self) -> (r: Option<SmsPlayerInput>)
        ensures
            (r, final(self)@) == spec_pop(old(self)@),
    {
        let r = self.0.pop();
        assert(self@ =~= old(self)@.drop_first() || old(self)@.len() == 0);
        r
    }

    /// Stop playback: nothing is left to play.
    pub fn end_playback(&mut self)
        ensures
            final(self)@ == Seq::<SmsPlayerInput>::empty(),
    {
        self.0 = Vec::new();
    }
}

} // verus!
