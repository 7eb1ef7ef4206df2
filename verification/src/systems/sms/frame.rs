//! Emulating a Master System a frame at a time: the VDP draws a line, the
//! Z80 runs for as long as the line takes, and at the end of the frame the
//! sound of the frame goes to the sound device.
use vstd::prelude::*;
use crate::hardware::sms_io::{SmsIo16Impler, SmsZ80IrqImpler};
use crate::hardware::sms_irq::spec_pause_pressed;
use crate::hardware::sms_memory::SmsMemoryState;
use crate::hardware::sms_player_input::SmsPlayerInput;
use crate::hardware::sms_vdp::graphics::{line, spec_line, SmsVdpGraphicsImpler};
use crate::hardware::sn76489::{failed_send, spec_queue, Sn76489Audio, Sn76489Impler, Sn76489State};
use crate::hardware::z80::run::{Z80Memo, Z80RunImpler};
use crate::host_multimedia::{SimpleAudio, SimpleGraphics};
use crate::memo::{nothing_inbox, NothingInbox};
use super::emulator::{SmsEmulationError, SmsS};

verus! {

/// The most steps the Z80 takes on one line: far more than a line's cycles
/// need. Only unprefixed `call` instructions, which count no cycles, calling
/// one another for ever could use them up.
pub const LINE_STEPS: u64 = 0x10000;

/// The most lines a frame has (a PAL frame).
pub const FRAME_LINES: u16 = 313;

/// The Z80 of `sms`, with its memory, ports and interrupt lines.
pub open spec fn machine_of<G, A>(sms: SmsS<G, A>) -> Z80RunImpler<
    SmsMemoryState,
    SmsIo16Impler<Sn76489State>,
    NothingInbox<Z80Memo>,
> {
    Z80RunImpler {
        z80: sms.z80,
        memory: sms.memory,
        io: SmsIo16Impler {
            irq: SmsZ80IrqImpler { vdp: sms.vdp, pause_interrupt: sms.pause_irq },
            sn76489: sms.sn76489,
            player_input: sms.player_input,
        },
        inbox: nothing_inbox(),
    }
}

/// `sms` with the Z80, memory, ports and interrupt lines of `m`.
pub open spec fn with_machine<G, A>(
    sms: SmsS<G, A>,
    m: Z80RunImpler<SmsMemoryState, SmsIo16Impler<Sn76489State>, NothingInbox<Z80Memo>>,
) -> SmsS<G, A> {
    SmsS {
        z80: m.z80,
        memory: m.memory,
        vdp: m.io.irq.vdp,
        pause_irq: m.io.irq.pause_interrupt,
        sn76489: m.io.sn76489,
        player_input: m.io.player_input,
        ..sms
    }
}

/// Two thirds of `cycles`: the Z80 runs at two thirds of the VDP's clock.
pub open spec fn z80_cycles_of(cycles: u64) -> u64 {
    (2 * cycles as int / 3) as u64
}

/// The machine after the Z80 runs until its clock reaches `target` (it
/// does not run if it is there already); `SomeError` when it cannot: an
/// interrupt arrives in interrupt mode 0, or its clock does not reach the
/// target within `LINE_STEPS` steps.
pub open spec fn spec_run_z80_to<G, A>(sms: SmsS<G, A>, target: u64) -> Result<SmsS<G, A>, SmsEmulationError> {
    if sms.z80.cycles >= target {
        Ok(sms)
    } else {
        match machine_of(sms).spec_start().spec_run_from(target, LINE_STEPS as nat) {
            Ok(m) => if m.z80.cycles >= target {
                Ok(with_machine(sms, m))
            } else {
                Err(SmsEmulationError::SomeError)
            },
            Err(_) => Err(SmsEmulationError::SomeError),
        }
    }
}

/// One line of a frame, when the host's graphics do not fail: the VDP
/// draws the line and lets its time pass, then the Z80 runs to two thirds
/// of the VDP's cycles. `SomeError` when the clocks would pass 2^63 cycles,
/// or the Z80 cannot run.
#[verifier::opaque]
pub open spec fn spec_frame_line<G: SimpleGraphics, A>(sms: SmsS<G, A>) -> Result<SmsS<G, A>, SmsEmulationError> {
    if sms.vdp.cycles >= 0x8000_0000_0000_0000 {
        Err(SmsEmulationError::SomeError)
    } else {
        let (vdp, graphics) = spec_line(sms.vdp, sms.graphics);
        spec_run_z80_to(SmsS { vdp, graphics, ..sms }, z80_cycles_of(vdp.cycles))
    }
}

/// At most `n` lines of a frame from `sms`, stopping after the line that
/// brings the VDP back to line 0.
pub open spec fn spec_frame_lines<G: SimpleGraphics, A>(sms: SmsS<G, A>, n: nat) -> Result<
    SmsS<G, A>,
    SmsEmulationError,
>
    decreases n,
{
    if n == 0 {
        Ok(sms)
    } else {
        match spec_frame_line(sms) {
            Ok(s1) => if s1.vdp.v == 0 {
                Ok(s1)
            } else {
                spec_frame_lines(s1, (n - 1) as nat)
            },
            Err(e) => Err(e),
        }
    }
}

/// The machine as a frame begins: the player's input is taken, and the
/// pause button goes to the pause interrupt.
pub open spec fn spec_frame_start<G, A>(sms: SmsS<G, A>, player_input: SmsPlayerInput) -> SmsS<G, A> {
    SmsS {
        player_input,
        pause_irq: spec_pause_pressed(sms.pause_irq, player_input.spec_pause()),
        ..sms
    }
}

/// A whole frame, when the host's devices do not fail: the lines of the
/// frame (`FRAME_LINES` at most), then, when the machine runs in real time
/// at `f` Hz, the sound up to a sixteenth of the Z80's cycles is made and
/// sent, and the result holds the Z80 cycles of the frame's end with `f`
/// (the host waits until that time); `None` when it runs as fast as it can.
/// `SomeError` when a line fails, or when the sound chip is set up so that
/// it cannot make sound.
pub open spec fn spec_run_frame<G: SimpleGraphics, A: SimpleAudio>(
    sms: SmsS<G, A>,
    player_input: SmsPlayerInput,
) -> Result<(SmsS<G, A>, Option<(u64, u64)>), SmsEmulationError> {
    match spec_frame_lines(spec_frame_start(sms, player_input), FRAME_LINES as nat) {
        Ok(s) => match s.time_status.frequency {
            None => Ok((s, None)),
            Some(f) => if !s.sn76489.sound_ok() {
                Err(SmsEmulationError::SomeError)
            } else {
                let (sn76489, audio) = spec_queue(
                    s.sn76489,
                    s.audio,
                    s.z80.cycles / 16,
                    s.audio.spec_buffer_len(),
                );
                Ok((SmsS { sn76489, audio, ..s }, Some((z80_cycles_of(s.vdp.cycles), f))))
            },
        },
        Err(e) => Err(e),
    }
}

/// Adding a line that succeeds to lines that all ran gives one more line.
proof fn lemma_frame_lines_snoc<G: SimpleGraphics, A>(
    s0: SmsS<G, A>,
    k: nat,
    s: SmsS<G, A>,
    r: Result<SmsS<G, A>, SmsEmulationError>,
)
    requires
        spec_frame_lines(s0, k) == Ok::<SmsS<G, A>, SmsEmulationError>(s),
        k == 0 || s.vdp.v != 0,
        spec_frame_line(s) == r,
    ensures
        r is Ok ==> spec_frame_lines(s0, k + 1) == r,
    decreases k,
{
    reveal_with_fuel(spec_frame_lines, 2);
    if k > 0 {
        let a = spec_frame_line(s0)->Ok_0;
        assert(spec_frame_line(s0) is Ok);
        if a.vdp.v == 0 {
            assert(spec_frame_lines(s0, k) == Ok::<SmsS<G, A>, SmsEmulationError>(a));
        } else {
            lemma_frame_lines_snoc(a, (k - 1) as nat, s, r);
        }
    }
}

/// Run the Z80 to `target`, unless it is there already.
fn run_z80_to<G, A>(sms: SmsS<G, A>, target: u64) -> (r: (SmsS<G, A>, Result<(), SmsEmulationError>))
    requires
        target < 0x8000_0000_0000_0000,
    ensures
        match spec_run_z80_to(sms, target) {
            Ok(s) => r.1 is Ok && r.0 == s,
            Err(e) => r.1 == Err::<(), SmsEmulationError>(e),
        },
        r.0.graphics == sms.graphics,
        r.0.audio == sms.audio,
        r.0.time_status == sms.time_status,
{
    if sms.z80.cycles() >= target {
        return (sms, Ok(()));
    }
    let SmsS { z80, vdp, memory, player_input, pause_irq, graphics, audio, sn76489, time_status } =
        sms;
    let mut m = Z80RunImpler {
        z80,
        memory,
        io: SmsIo16Impler {
            irq: SmsZ80IrqImpler { vdp, pause_interrupt: pause_irq },
            sn76489,
            player_input,
        },
        inbox: NothingInbox::default(),
    };
    let ran = m.run(target, LINE_STEPS);
    let reached = m.z80.cycles() >= target;
    let Z80RunImpler { z80, memory, io, inbox } = m;
    let SmsIo16Impler { irq, sn76489, player_input } = io;
    let s = SmsS {
        z80,
        vdp: irq.vdp,
        memory,
        player_input,
        pause_irq: irq.pause_interrupt,
        graphics,
        audio,
        sn76489,
        time_status,
    };
    match ran {
        Err(_) => (s, Err(SmsEmulationError::SomeError)),
        Ok(()) => if reached {
            (s, Ok(()))
        } else {
            (s, Err(SmsEmulationError::SomeError))
        },
    }
}

/// Two thirds of `c`, computed without overflow.
fn two_thirds(c: u64) -> (r: u64)
    ensures
        r == z80_cycles_of(c),
        r <= c,
{
    let q = c / 3;
    let m = c % 3;
    assert(2 * (c as int) / 3 == 2 * (q as int) + (2 * (m as int)) / 3) by (nonlinear_arith)
        requires
            q == c / 3,
            m == c % 3,
    ;
    q * 2 + m * 2 / 3
}

/// One line of a frame: see `spec_frame_line`. An error of the host's
/// graphics is returned as a `GraphicsError`, with the machine as it was
/// but for its screen.
fn frame_line<G: SimpleGraphics, A>(sms: SmsS<G, A>) -> (r: (SmsS<G, A>, Result<(), SmsEmulationError>))
    ensures
        r.1 is Ok ==> spec_frame_line(sms) == Ok::<SmsS<G, A>, SmsEmulationError>(r.0),
        spec_frame_line(sms) is Err ==> r.1 is Err,
        r.1 matches Err(SmsEmulationError::SomeError) ==> spec_frame_line(sms) == Err::<
            SmsS<G, A>,
            SmsEmulationError,
        >(SmsEmulationError::SomeError),
        r.1 matches Err(SmsEmulationError::GraphicsError(_)) ==> r.0 == (SmsS {
            graphics: r.0.graphics,
            ..sms
        }),
        !(r.1 matches Err(SmsEmulationError::AudioError(_))),
        r.0.audio == sms.audio,
        r.0.time_status == sms.time_status,
{
    reveal(spec_frame_line);
    if sms.vdp.cycles >= 0x8000_0000_0000_0000 {
        return (sms, Err(SmsEmulationError::SomeError));
    }
    let SmsS { z80, vdp, memory, player_input, pause_irq, graphics, audio, sn76489, time_status } =
        sms;
    let mut vg = SmsVdpGraphicsImpler { graphics, vdp };
    let drawn = line(&mut vg);
    let SmsVdpGraphicsImpler { graphics, vdp } = vg;
    let s = SmsS { z80, vdp, memory, player_input, pause_irq, graphics, audio, sn76489, time_status };
    match drawn {
        Err(e) => {
            return (s, Err(SmsEmulationError::GraphicsError(e)));
        },
        Ok(()) => {},
    }
    let target = two_thirds(s.vdp.cycles);
    run_z80_to(s, target)
}

/// The lines of a frame, with `player_input` as the player's controls: see
/// `spec_frame_start` and `spec_frame_lines`.
fn frame_lines<G: SimpleGraphics, A>(sms: SmsS<G, A>, player_input: SmsPlayerInput) -> (r: (
    SmsS<G, A>,
    Result<(), SmsEmulationError>,
))
    ensures
        r.1 is Ok ==> spec_frame_lines(spec_frame_start(sms, player_input), FRAME_LINES as nat)
            == Ok::<SmsS<G, A>, SmsEmulationError>(r.0),
        spec_frame_lines(spec_frame_start(sms, player_input), FRAME_LINES as nat) is Err ==> r.1 is Err,
        r.1 matches Err(SmsEmulationError::SomeError) ==> spec_frame_lines(
            spec_frame_start(sms, player_input),
            FRAME_LINES as nat,
        ) == Err::<SmsS<G, A>, SmsEmulationError>(SmsEmulationError::SomeError),
        r.1 matches Err(SmsEmulationError::GraphicsError(_)) ==> exists|n: nat|
            n < FRAME_LINES && (#[trigger] spec_frame_lines(spec_frame_start(sms, player_input), n)
                matches Ok(s) && r.0 == (SmsS { graphics: r.0.graphics, ..s })),
        !(r.1 matches Err(SmsEmulationError::AudioError(_))),
        r.0.time_status == sms.time_status,
        r.0.audio == sms.audio,
{
    let mut cur = sms;
    cur.player_input = player_input;
    let p = player_input.pause();
    cur.pause_irq.pause_pressed(p);
    let ghost start = cur;
    let mut lines: u16 = 0;
    while lines < FRAME_LINES
        invariant_except_break
            lines <= FRAME_LINES,
            spec_frame_lines(start, FRAME_LINES as nat) == spec_frame_lines(
                cur,
                (FRAME_LINES - lines) as nat,
            ),
            spec_frame_lines(start, lines as nat) == Ok::<SmsS<G, A>, SmsEmulationError>(cur),
            lines == 0 || cur.vdp.v != 0,
        invariant
            start == spec_frame_start(sms, player_input),
            cur.time_status == start.time_status,
            cur.audio == start.audio,
        ensures
            spec_frame_lines(start, FRAME_LINES as nat) == Ok::<SmsS<G, A>, SmsEmulationError>(cur),
        decreases FRAME_LINES - lines,
    {
        let ghost before = cur;
        let (s1, res) = frame_line(cur);
        cur = s1;
        match res {
            Err(e) => {
                proof {
                    if e matches SmsEmulationError::GraphicsError(_) {
                        assert(lines < FRAME_LINES && (spec_frame_lines(start, lines as nat) matches Ok(s)
                            && cur == (SmsS { graphics: cur.graphics, ..s })));
                    }
                }
                return (cur, Err(e));
            },
            Ok(()) => {},
        }
        proof {
            lemma_frame_lines_snoc(start, lines as nat, before, spec_frame_line(before));
        }
        lines = lines + 1;
        if cur.vdp.v == 0 {
            break ;
        }
    }
    (cur, Ok(()))
}

/// Emulate one frame, with `player_input` as the player's controls: see
/// `spec_run_frame`. The machine comes back with the result; when it runs
/// in real time the result holds the Z80 cycles at the end of the frame and
/// the clock frequency, and the host waits until then. When the host's
/// screen or sound device fails, the error is returned at once: a
/// `GraphicsError` with the machine as the lines before left it but for its
/// screen, or an `AudioError` with the machine as the frame left it but for
/// its sound.
pub fn run_frame<G: SimpleGraphics, A: SimpleAudio>(sms: SmsS<G, A>, player_input: SmsPlayerInput) -> (r: (
    SmsS<G, A>,
    Result<Option<(u64, u64)>, SmsEmulationError>,
))
    requires
        sms.time_status.frequency is Some ==> 0 < sms.audio.spec_buffer_len() <= 0xFFFF,
    ensures
        match r.1 {
            Ok(x) => spec_run_frame(sms, player_input) == Ok::<
                (SmsS<G, A>, Option<(u64, u64)>),
                SmsEmulationError,
            >((r.0, x)),
            Err(_) => true,
        },
        spec_run_frame(sms, player_input) is Err ==> r.1 is Err,
        r.1 matches Err(SmsEmulationError::SomeError) ==> spec_run_frame(sms, player_input) == Err::<
            (SmsS<G, A>, Option<(u64, u64)>),
            SmsEmulationError,
        >(SmsEmulationError::SomeError),
        r.1 matches Err(SmsEmulationError::GraphicsError(_)) ==> exists|n: nat|
            n < FRAME_LINES && (#[trigger] spec_frame_lines(spec_frame_start(sms, player_input), n)
                matches Ok(s) && r.0 == (SmsS { graphics: r.0.graphics, ..s })),
        r.1 matches Err(SmsEmulationError::AudioError(_)) ==> spec_frame_lines(
            spec_frame_start(sms, player_input),
            FRAME_LINES as nat,
        ) matches Ok(s) && r.0 == (SmsS { sn76489: r.0.sn76489, audio: r.0.audio, ..s })
            && r.0.sn76489.sound_ok() && exists|n: nat|
            #[trigger] failed_send(s.sn76489, s.audio, s.z80.cycles / 16, r.0.sn76489, n),
{
    let ghost start = spec_frame_start(sms, player_input);
    let (sms, lines_done) = frame_lines(sms, player_input);
    match lines_done {
        Err(e) => {
            return (sms, Err(e));
        },
        Ok(()) => {},
    }
    match sms.time_status.frequency {
        None => (sms, Ok(None)),
        Some(f) => {
            if !sms.sn76489.can_make_sound() {
                return (sms, Err(SmsEmulationError::SomeError));
            }
            let target = sms.z80.cycles() / 16;
            let frame_end = two_thirds(sms.vdp.cycles);
            let SmsS {
                z80,
                vdp,
                memory,
                player_input,
                pause_irq,
                graphics,
                audio,
                sn76489,
                time_status,
            } = sms;
            let mut sound = Sn76489Impler { sn76489, audio };
            let queued = sound.queue(target);
            let Sn76489Impler { sn76489, audio } = sound;
            let s = SmsS {
                z80,
                vdp,
                memory,
                player_input,
                pause_irq,
                graphics,
                audio,
                sn76489,
                time_status,
            };
            match queued {
                Ok(()) => (s, Ok(Some((frame_end, f)))),
                Err(e) => (s, Err(SmsEmulationError::AudioError(e))),
            }
        },
    }
}

} // verus!
