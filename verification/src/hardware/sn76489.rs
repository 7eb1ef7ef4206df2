//! The SN76489 is the sound chip in the Sega Master System and Sega Game Gear.
use vstd::prelude::*;
use vstd::array::spec_array_update;
use crate::host_multimedia::SimpleAudio;

verus! {

/// The hardware interface for the SN76489 sound chip: the byte a write
/// leaves it with is `spec_write`.
pub trait Sn76489Interface: Sized {
    spec fn spec_write(&self, data: u8) -> Self;

    fn write(&mut self, data: u8)
        ensures
            *final(self) == old(self).spec_write(data),
    ;
}

/// The registers and counters of the SN76489.
///
/// The registers are, in order, the tone and volume of each of the 4
/// channels. Only 10 bits are needed for a tone and 4 for a volume.
#[derive(Clone, Copy, Debug, PartialEq, Eq)]
pub struct Sn76489State {
    pub registers: [u16; 8],
    pub latch: u8,
    pub linear_feedback: u16,
    pub counters: [u16; 4],
    pub polarity: [i8; 4],
    pub cycles: u64,
}

impl Sn76489State {
    /// Tones 0, volumes silent (0xF), noise register reset.
    pub fn new() -> (r: Sn76489State)
        ensures
            r.registers@ == seq![0u16, 0xF, 0, 0xF, 0, 0xF, 0, 0xF],
            r.latch == 0,
            r.linear_feedback == 0x8000,
            r.counters@ == seq![1u16, 1, 1, 1],
            r.polarity@ == seq![1i8, 1, 1, 1],
            r.cycles == 0,
            r.sound_ok(),
    {
        let r = Sn76489State {
            registers: [0, 0xF, 0, 0xF, 0, 0xF, 0, 0xF],
            latch: 0,
            linear_feedback: 0x8000,
            counters: [1, 1, 1, 1],
            polarity: [1, 1, 1, 1],
            cycles: 0,
        };
        assert(r.registers@ =~= seq![0u16, 0xF, 0, 0xF, 0, 0xF, 0, 0xF]);
        assert(r.counters@ =~= seq![1u16, 1, 1, 1]);
        assert(r.polarity@ =~= seq![1i8, 1, 1, 1]);
        r
    }
}

/// (A latch outside 0 to 7, which no write produces, is taken modulo 8.)
///
/// The register value after a write of `data`: a latch byte (bit 7 set)
/// selects register `(data >> 4) & 7` and sets its low 4 bits; a data byte
/// sets bits 4 to 9 of a tone register, or the whole of a volume register.
pub open spec fn spec_register_after(reg: u16, latch_write: bool, tone: bool, data: u8) -> u16 {
    if latch_write {
        ((reg as int / 16) * 16 + data as int % 16) as u16
    } else if tone {
        ((reg as int / 1024) * 1024 + (data as int % 64) * 16 + reg as int % 16) as u16
    } else {
        (data as int % 16) as u16
    }
}

impl Sn76489Interface for Sn76489State {
    open spec fn spec_write(&self, data: u8) -> Self {
        let latch_write = data >= 0x80;
        let latch = if latch_write {
            (data / 16) % 8
        } else {
            self.latch % 8
        };
        let reg = self.registers@[latch as int];
        let s = Sn76489State {
            latch,
            registers: spec_array_update(
                self.registers,
                latch as int,
                spec_register_after(reg, latch_write, latch % 2 == 0, data),
            ),
            ..*self
        };
        if latch == 6 {
            Sn76489State { linear_feedback: 0x8000, ..s }
        } else {
            s
        }
    }

    fn write(&mut self, data: u8) {
        let latch_write = data >= 0x80;
        if latch_write {
            self.latch = (data / 16) % 8;
        } else {
            self.latch = self.latch % 8;
        }
        let l = self.latch as usize;
        let reg = self.registers[l];
        let nv: u16 = if latch_write {
            (reg / 16) * 16 + (data % 16) as u16
        } else if self.latch % 2 == 0 {
            (reg / 1024) * 1024 + ((data % 64) as u16) * 16 + reg % 16
        } else {
            (data % 16) as u16
        };
        self.registers[l] = nv;
        if self.latch == 6 {
            self.linear_feedback = 0x8000;
        }
        assert(self.registers =~= old(self).spec_write(data).registers);
    }
}

/// An SN76489 that doesn't actually do anything.
#[derive(Clone, Copy, Debug, PartialEq, Eq, Structural)]
pub struct FakeSn76489;

impl Sn76489Interface for FakeSn76489 {
    open spec fn spec_write(&self, data: u8) -> Self {
        *self
    }

    fn write(&mut self, _data: u8) {
    }
}

/// The amplitude of a sample for a volume register value, 0 the loudest and
/// 15 silent. The three loudest are capped at the fourth, as on real
/// hardware, where they are not as loud as documented.
pub open spec fn spec_amplitude(vol: u16) -> int {
    if vol <= 3 {
        2010
    } else if vol == 4 {
        1268
    } else if vol == 5 {
        800
    } else if vol == 6 {
        505
    } else if vol == 7 {
        318
    } else if vol == 8 {
        201
    } else if vol == 9 {
        127
    } else if vol == 10 {
        80
    } else if vol == 11 {
        50
    } else if vol == 12 {
        32
    } else if vol == 13 {
        20
    } else if vol == 14 {
        13
    } else {
        0
    }
}

fn amplitude(vol: u16) -> (r: i16)
    requires
        vol < 16,
    ensures
        r == spec_amplitude(vol),
        0 <= r <= 2010,
{
    match vol {
        0 | 1 | 2 | 3 => 2010,
        4 => 1268,
        5 => 800,
        6 => 505,
        7 => 318,
        8 => 201,
        9 => 127,
        10 => 80,
        11 => 50,
        12 => 32,
        13 => 20,
        14 => 13,
        _ => 0,
    }
}

/// `x` if `p` is 0 or bigger, else `p`: the smallest of the nonzero values.
pub open spec fn min_nonzero(x: u16, p: u16) -> u16 {
    if p == 0 || x < p {
        x
    } else {
        p
    }
}

impl Sn76489State {
    /// Can the chip make sound: volumes are 4 bits, the polarities are +1
    /// or -1, the counters are running, and the noise counter can be
    /// reloaded from tone 2 (nonzero, and not overflowing when doubled)?
    pub open spec fn sound_ok(self) -> bool {
        &&& self.registers@[1] < 16
        &&& self.registers@[3] < 16
        &&& self.registers@[5] < 16
        &&& self.registers@[7] < 16
        &&& (self.polarity@[0] == 1 || self.polarity@[0] == -1)
        &&& (self.polarity@[1] == 1 || self.polarity@[1] == -1)
        &&& (self.polarity@[2] == 1 || self.polarity@[2] == -1)
        &&& (self.polarity@[3] == 1 || self.polarity@[3] == -1)
        &&& self.counters@[0] != 0
        &&& self.counters@[1] != 0
        &&& self.counters@[2] != 0
        &&& self.counters@[3] != 0
        &&& self.registers@[4] < 0x8000
        &&& (self.registers@[6] % 4 == 3 ==> self.registers@[4] != 0)
    }

    /// Can the chip make sound?
    pub fn can_make_sound(&self) -> (r: bool)
        ensures
            r == self.sound_ok(),
    {
        self.registers[1] < 16 && self.registers[3] < 16 && self.registers[5] < 16
            && self.registers[7] < 16 && (self.polarity[0] == 1 || self.polarity[0] == -1)
            && (self.polarity[1] == 1 || self.polarity[1] == -1) && (self.polarity[2] == 1
            || self.polarity[2] == -1) && (self.polarity[3] == 1 || self.polarity[3] == -1)
            && self.counters[0] != 0 && self.counters[1] != 0 && self.counters[2] != 0
            && self.counters[3] != 0 && self.registers[4] < 0x8000 && (self.registers[6] % 4 != 3
            || self.registers[4] != 0)
    }

    /// The sample the chip is producing: the sum of each channel's polarity
    /// times the amplitude of its volume.
    pub open spec fn spec_sample(self) -> int {
        self.polarity@[0] * spec_amplitude(self.registers@[1]) + self.polarity@[1] * spec_amplitude(
            self.registers@[3],
        ) + self.polarity@[2] * spec_amplitude(self.registers@[5]) + self.polarity@[3]
            * spec_amplitude(self.registers@[7])
    }

    /// How many samples until the next counter runs out, at most `rem`.
    pub open spec fn spec_count(self, rem: u16) -> u16 {
        min_nonzero(
            rem,
            min_nonzero(
                self.counters@[0],
                min_nonzero(self.counters@[1], min_nonzero(self.counters@[2], self.counters@[3])),
            ),
        )
    }

    /// Tone channel `j` after `count` samples: a tone of 0 or 1 holds the
    /// channel high; otherwise the polarity flips and the counter reloads
    /// when it runs out.
    pub open spec fn tone_after(self, j: int, count: u16) -> Self {
        let c = (self.counters@[j] - count) as u16;
        let tone = self.registers@[2 * j];
        if tone == 0 || tone == 1 {
            Sn76489State {
                polarity: spec_array_update(self.polarity, j, 1i8),
                counters: spec_array_update(self.counters, j, 0x3FFu16),
                ..self
            }
        } else if c == 0 {
            Sn76489State {
                polarity: spec_array_update(self.polarity, j, (-self.polarity@[j]) as i8),
                counters: spec_array_update(self.counters, j, tone),
                ..self
            }
        } else {
            Sn76489State { counters: spec_array_update(self.counters, j, c), ..self }
        }
    }

    /// The noise channel after `count` samples: when its counter runs out it
    /// reloads from the noise register's rate (or twice tone 2), takes its
    /// polarity from the shift register, and the shift register shifts in
    /// white or periodic noise.
    pub open spec fn noise_after(self, count: u16) -> Self {
        let c = (self.counters@[3] - count) as u16;
        if c != 0 {
            Sn76489State { counters: spec_array_update(self.counters, 3, c), ..self }
        } else {
            let rate = self.registers@[6] % 4;
            let reload: u16 = if rate == 0 {
                0x20
            } else if rate == 1 {
                0x40
            } else if rate == 2 {
                0x80
            } else {
                (2 * self.registers@[4]) as u16
            };
            let lf = self.linear_feedback;
            let bit0 = lf % 2;
            let next_lf: u16 = if (self.registers@[6] / 4) % 2 == 1 {
                (0x8000u16 ^ ((lf & 8) << 12u16)) | (lf >> 1u16)
            } else {
                0x8000u16 | (lf >> 1u16)
            };
            Sn76489State {
                counters: spec_array_update(self.counters, 3, reload),
                polarity: spec_array_update(self.polarity, 3, (2 * bit0 - 1) as i8),
                linear_feedback: next_lf,
                ..self
            }
        }
    }

    /// The chip after `count` samples.
    pub open spec fn spec_advance(self, count: u16) -> Self {
        self.tone_after(0, count).tone_after(1, count).tone_after(2, count).noise_after(count)
    }
}

/// The volume registers attenuate: a larger volume value is never louder,
/// 15 is silence, and 0 to 3 are the loudest.
pub proof fn lemma_volume(v: u16, w: u16)
    requires
        v <= w < 16,
    ensures
        spec_amplitude(w) <= spec_amplitude(v),
        spec_amplitude(15) == 0,
        spec_amplitude(v) > 0 || v == 15,
        v <= 3 ==> spec_amplitude(v) == 2010,
{
}

/// The noise channel's shift register: when the noise counter runs out,
/// the register shifts right by one place; the bit shifted in at the top is
/// the inverse of the old bit 3 for white noise (bit 2 of the noise register
/// set), and always 1 for periodic noise; the channel takes the polarity of
/// the bit shifted out, and the counter reloads from the noise rate. Until
/// the counter runs out, the register stays as it is.
pub proof fn lemma_noise_shift(s: Sn76489State, count: u16)
    requires
        1 <= count <= s.counters@[3],
    ensures
        ({
            let t = s.spec_advance(count);
            let lf = s.linear_feedback;
            if s.counters@[3] == count {
                &&& t.linear_feedback % 0x8000 == lf / 2
                &&& (s.registers@[6] / 4) % 2 == 1 ==> (t.linear_feedback >= 0x8000 <==> (lf / 8) % 2
                    == 0)
                &&& (s.registers@[6] / 4) % 2 == 0 ==> t.linear_feedback >= 0x8000
                &&& t.polarity@[3] == (if lf % 2 == 1 {
                    1i8
                } else {
                    -1i8
                })
                &&& t.counters@[3] == (if s.registers@[6] % 4 == 3 {
                    (2 * s.registers@[4]) as u16
                } else {
                    (0x20 * pow2_of(s.registers@[6] % 4)) as u16
                })
            } else {
                &&& t.linear_feedback == lf
                &&& t.counters@[3] == s.counters@[3] - count
                &&& t.polarity@[3] == s.polarity@[3]
            }
        }),
{
    let lf = s.linear_feedback;
    let s3 = s.tone_after(0, count).tone_after(1, count).tone_after(2, count);
    assert(s3.counters@[3] == s.counters@[3]);
    assert(s3.polarity@[3] == s.polarity@[3]);
    assert(s3.linear_feedback == lf && s3.registers == s.registers);
    let white = (0x8000u16 ^ ((lf & 8) << 12u16)) | (lf >> 1u16);
    let periodic = 0x8000u16 | (lf >> 1u16);
    assert(white % 0x8000 == lf / 2 && (white >= 0x8000 <==> (lf / 8) % 2 == 0)) by (bit_vector)
        requires
            white == (0x8000u16 ^ ((lf & 8) << 12u16)) | (lf >> 1u16),
    ;
    assert(periodic % 0x8000 == lf / 2 && periodic >= 0x8000) by (bit_vector)
        requires
            periodic == 0x8000u16 | (lf >> 1u16),
    ;
}

/// A tone channel: with a tone of 0 or 1 it is held high; otherwise, when
/// its counter runs out, its output flips and the counter reloads from the
/// tone register, and until then the counter counts down.
pub proof fn lemma_tone_channel(s: Sn76489State, j: int, count: u16)
    requires
        s.sound_ok(),
        0 <= j < 3,
        1 <= count <= s.counters@[j],
    ensures
        ({
            let t = s.spec_advance(count);
            let tone = s.registers@[2 * j];
            if tone <= 1 {
                t.polarity@[j] == 1 && t.counters@[j] == 0x3FF
            } else if s.counters@[j] == count {
                t.polarity@[j] == -s.polarity@[j] && t.counters@[j] == tone
            } else {
                t.polarity@[j] == s.polarity@[j] && t.counters@[j] == s.counters@[j] - count
            }
        }),
{
    let s1 = s.tone_after(0, count);
    let s2 = s1.tone_after(1, count);
    let s3 = s2.tone_after(2, count);
    if j == 0 {
        assert(s3.polarity@[0] == s1.polarity@[0] && s3.counters@[0] == s1.counters@[0]);
    } else if j == 1 {
        assert(s3.polarity@[1] == s2.polarity@[1] && s3.counters@[1] == s2.counters@[1]);
        assert(s1.polarity@[1] == s.polarity@[1] && s1.counters@[1] == s.counters@[1]);
    } else {
        assert(s2.polarity@[2] == s.polarity@[2] && s2.counters@[2] == s.counters@[2]);
    }
}

/// 1, 2 or 4 for a noise rate of 0, 1 or 2.
pub open spec fn pow2_of(r: u16) -> int {
    if r == 0 {
        1
    } else if r == 1 {
        2
    } else {
        4
    }
}

/// The device after samples `from` to `to - 1` are set to `v`.
pub open spec fn fill_range<A: SimpleAudio>(a: A, from: int, to: int, v: i16) -> A
    decreases to - from,
{
    if from >= to {
        a
    } else {
        fill_range(a.spec_buffer_set(from as usize, v), from + 1, to, v)
    }
}

/// The chip and the device after samples `i` to `len - 1` of the buffer are
/// made: each run of samples until a counter runs out has one value.
pub open spec fn spec_fill<A: SimpleAudio>(s: Sn76489State, a: A, i: int, len: int) -> (
    Sn76489State,
    A,
)
    decreases len - i,
{
    if i >= len {
        (s, a)
    } else {
        let count = s.spec_count((len - i) as u16);
        if count == 0 {
            (s, a)
        } else {
            spec_fill(
                s.spec_advance(count),
                fill_range(a, i, i + count, s.spec_sample() as i16),
                i + count,
                len,
            )
        }
    }
}

/// The chip and the device after buffers of `len` samples are made and sent
/// until the chip's cycles reach `target`.
pub open spec fn spec_queue<A: SimpleAudio>(s: Sn76489State, a: A, target: u64, len: usize) -> (
    Sn76489State,
    A,
)
    decreases (if s.cycles < target {
        target - s.cycles
    } else {
        0
    }),
{
    if s.cycles >= target || len == 0 || s.cycles + len > u64::MAX {
        (s, a)
    } else {
        let (s1, a1) = spec_fill(s, a, 0, len as int);
        spec_queue(
            Sn76489State { cycles: (s.cycles + len) as u64, ..s1 },
            a1.spec_queue_buffer(),
            target,
            len,
        )
    }
}

/// The chip and the device after one buffer of `len` samples is made and
/// sent (when the device takes it).
pub open spec fn spec_round<A: SimpleAudio>(s: Sn76489State, a: A, len: usize) -> (Sn76489State, A) {
    let (s1, a1) = spec_fill(s, a, 0, len as int);
    (Sn76489State { cycles: (s.cycles + len) as u64, ..s1 }, a1.spec_queue_buffer())
}

/// The chip and the device after `n` buffers are made and sent.
pub open spec fn spec_rounds<A: SimpleAudio>(s: Sn76489State, a: A, len: usize, n: nat) -> (
    Sn76489State,
    A,
)
    decreases n,
{
    if n == 0 {
        (s, a)
    } else {
        let (s1, a1) = spec_rounds(s, a, len, (n - 1) as nat);
        spec_round(s1, a1, len)
    }
}

/// Did a queue from chip `s0` and device `a0` towards `target` send `n`
/// buffers, then make buffer `n + 1` and fail to send it, leaving the chip
/// `s`?
pub open spec fn failed_send<A: SimpleAudio>(
    s0: Sn76489State,
    a0: A,
    target: u64,
    s: Sn76489State,
    n: nat,
) -> bool {
    let len = a0.spec_buffer_len();
    let (sn, an) = spec_rounds(s0, a0, len, n);
    &&& n < buffers_needed(s0.cycles, target, len)
    &&& sn.cycles < target
    &&& s == (Sn76489State { cycles: (sn.cycles + len) as u64, ..spec_fill(sn, an, 0, len as int).0 })
}

/// How many buffers of `len` samples take a clock from `cycles` to at least
/// `target`.
pub open spec fn buffers_needed(cycles: u64, target: u64, len: usize) -> nat {
    if cycles >= target {
        0
    } else {
        ((target - cycles + len - 1) / (len as int)) as nat
    }
}

/// The SN76489 with the sound device it plays on.
pub struct Sn76489Impler<S, A> {
    pub sn76489: S,
    pub audio: A,
}

/// Making the sound of the chip up to a point in time.
pub trait Sn76489Audio: Sized {
    /// Can sound be made up to `target_cycles` from this state?
    spec fn spec_can_queue(&self, target_cycles: u64) -> bool;

    /// The state after the sound is made, when the device does not fail.
    spec fn spec_queue(&self, target_cycles: u64) -> Self;

    fn queue(&mut self, target_cycles: u64) -> (r: Result<(), String>)
        requires
            old(self).spec_can_queue(target_cycles),
        ensures
            r is Ok ==> *final(self) == old(self).spec_queue(target_cycles),
    ;
}

impl<A> Sn76489Audio for Sn76489Impler<FakeSn76489, A> {
    open spec fn spec_can_queue(&self, target_cycles: u64) -> bool {
        true
    }

    open spec fn spec_queue(&self, target_cycles: u64) -> Self {
        *self
    }

    fn queue(&mut self, _target_cycles: u64) -> (r: Result<(), String>) {
        Ok(())
    }
}


impl<A: SimpleAudio> Sn76489Impler<Sn76489State, A> {
    /// Set samples `from` to `to - 1` of the buffer to `v`.
    fn fill(&mut self, from: usize, to: usize, v: i16)
        requires
            from <= to <= old(self).audio.spec_buffer_len(),
        ensures
            final(self).audio == fill_range(old(self).audio, from as int, to as int, v),
            final(self).audio.spec_buffer_len() == old(self).audio.spec_buffer_len(),
            final(self).sn76489 == old(self).sn76489,
    {
        let ghost target = fill_range(self.audio, from as int, to as int, v);
        let ghost len = self.audio.spec_buffer_len();
        let mut j = from;
        while j < to
            invariant
                from <= j <= to,
                to <= len,
                self.audio.spec_buffer_len() == len,
                self.sn76489 == old(self).sn76489,
                fill_range(self.audio, j as int, to as int, v) == target,
            decreases to - j,
        {
            self.audio.buffer_set(j, v);
            j = j + 1;
        }
    }

    /// Advance the chip by `count` samples.
    fn advance(&mut self, count: u16)
        requires
            old(self).sn76489.sound_ok(),
            count >= 1,
            forall|k: int| 0 <= k < 4 ==> count <= #[trigger] old(self).sn76489.counters@[k],
        ensures
            final(self).sn76489 == old(self).sn76489.spec_advance(count),
            final(self).sn76489.sound_ok(),
            final(self).audio == old(self).audio,
    {
        let ghost s0 = self.sn76489;
        let mut j: usize = 0;
        while j < 3
            invariant
                j <= 3,
                count >= 1,
                s0.sound_ok(),
                forall|k: int| 0 <= k < 4 ==> count <= #[trigger] s0.counters@[k],
                self.audio == old(self).audio,
                self.sn76489 == (if j == 0 {
                    s0
                } else if j == 1 {
                    s0.tone_after(0, count)
                } else if j == 2 {
                    s0.tone_after(0, count).tone_after(1, count)
                } else {
                    s0.tone_after(0, count).tone_after(1, count).tone_after(2, count)
                }),
                forall|k: int| j <= k < 4 ==> #[trigger] self.sn76489.counters@[k] == s0.counters@[k],
                forall|k: int| j <= k < 4 ==> #[trigger] self.sn76489.polarity@[k] == s0.polarity@[k],
                forall|k: int| 0 <= k < j ==> #[trigger] self.sn76489.counters@[k] != 0,
                forall|k: int| 0 <= k < j ==> (#[trigger] self.sn76489.polarity@[k] == 1 || self.sn76489.polarity@[k] == -1),
                self.sn76489.registers == s0.registers,
                self.sn76489.linear_feedback == s0.linear_feedback,
                self.sn76489.cycles == s0.cycles,
                self.sn76489.latch == s0.latch,
            decreases 3 - j,
        {
            let c = self.sn76489.counters[j] - count;
            let tone_reg = self.sn76489.registers[2 * j];
            if tone_reg == 0 || tone_reg == 1 {
                self.sn76489.polarity[j] = 1;
                self.sn76489.counters[j] = 0x3FF;
            } else if c == 0 {
                self.sn76489.polarity[j] = -self.sn76489.polarity[j];
                self.sn76489.counters[j] = tone_reg;
            } else {
                self.sn76489.counters[j] = c;
            }
            proof {
                let t = self.sn76489;
                assert(t.counters =~= self.sn76489.counters);
            }
            j = j + 1;
        }
        let c3 = self.sn76489.counters[3] - count;
        if c3 != 0 {
            self.sn76489.counters[3] = c3;
        } else {
            let rate = self.sn76489.registers[6] % 4;
            let reload: u16 = if rate == 0 {
                0x20
            } else if rate == 1 {
                0x40
            } else if rate == 2 {
                0x80
            } else {
                2 * self.sn76489.registers[4]
            };
            let lf = self.sn76489.linear_feedback;
            let bit0 = lf % 2;
            let next_lf: u16 = if (self.sn76489.registers[6] / 4) % 2 == 1 {
                (0x8000u16 ^ ((lf & 8) << 12u16)) | (lf >> 1u16)
            } else {
                0x8000u16 | (lf >> 1u16)
            };
            self.sn76489.counters[3] = reload;
            self.sn76489.polarity[3] = (2 * bit0 as i8) - 1;
            self.sn76489.linear_feedback = next_lf;
        }
        assert(self.sn76489.counters =~= s0.spec_advance(count).counters);
        assert(self.sn76489.polarity =~= s0.spec_advance(count).polarity);
    }

    /// Make a whole buffer of samples.
    fn fill_buffer(&mut self, len: usize)
        requires
            old(self).sn76489.sound_ok(),
            len == old(self).audio.spec_buffer_len(),
            0 < len <= 0xFFFF,
        ensures
            (final(self).sn76489, final(self).audio) == spec_fill(
                old(self).sn76489,
                old(self).audio,
                0,
                len as int,
            ),
            final(self).sn76489.sound_ok(),
            final(self).sn76489.cycles == old(self).sn76489.cycles,
            final(self).audio.spec_buffer_len() == len,
    {
        let ghost target = spec_fill(self.sn76489, self.audio, 0, len as int);
        let ghost cycles0 = self.sn76489.cycles;
        let mut i: usize = 0;
        while i < len
            invariant
                i <= len,
                len <= 0xFFFF,
                self.audio.spec_buffer_len() == len,
                self.sn76489.sound_ok(),
                self.sn76489.cycles == cycles0,
                spec_fill(self.sn76489, self.audio, i as int, len as int) == target,
            decreases len - i,
        {
            let s = &self.sn76489;
            let t0 = channel_sample(s.polarity[0], amplitude(s.registers[1]));
            let t1 = channel_sample(s.polarity[1], amplitude(s.registers[3]));
            let t2 = channel_sample(s.polarity[2], amplitude(s.registers[5]));
            let t3 = channel_sample(s.polarity[3], amplitude(s.registers[7]));
            let sum: i16 = t0 + t1 + t2 + t3;
            let rem = (len - i) as u16;
            let count = min_nonzero_exec(
                rem,
                min_nonzero_exec(
                    s.counters[0],
                    min_nonzero_exec(s.counters[1], min_nonzero_exec(s.counters[2], s.counters[3])),
                ),
            );
            let last = i + count as usize;
            self.fill(i, last, sum);
            self.advance(count);
            i = last;
        }
    }
}

/// After `buffers_needed` buffers the clock has reached the target, and
/// not before: `n` buffers from below the target stay below it exactly when
/// `n` is fewer.
proof fn lemma_buffers_needed(cycles: u64, target: u64, len: usize, n: int)
    requires
        len > 0,
        cycles < target,
        0 <= n,
    ensures
        buffers_needed(cycles, target, len) >= 1,
        cycles + n * len < target <==> n < buffers_needed(cycles, target, len),
        n == buffers_needed(cycles, target, len) ==> cycles + n * len < target + len,
{
    let d = target - cycles;
    let k = (d + len - 1) / (len as int);
    assert(k * len >= d && (k - 1) * len < d && k >= 1 && k * len < d + len) by (nonlinear_arith)
        requires
            k == (d + len - 1) / (len as int),
            d > 0,
            len > 0,
    ;
    assert(buffers_needed(cycles, target, len) == k);
    if n < k {
        assert(n * len <= (k - 1) * len) by (nonlinear_arith)
            requires
                n <= k - 1,
                len > 0,
        ;
    } else {
        assert(n * len >= k * len) by (nonlinear_arith)
            requires
                n >= k,
                len > 0,
        ;
    }
}

/// A channel's part of the sample: its amplitude, or the amplitude negated
/// when its polarity is -1.
fn channel_sample(polarity: i8, amp: i16) -> (r: i16)
    requires
        polarity == 1 || polarity == -1,
        0 <= amp <= 2010,
    ensures
        r == polarity * amp,
        -2010 <= r <= 2010,
{
    if polarity == 1 {
        amp
    } else {
        -amp
    }
}

fn min_nonzero_exec(x: u16, p: u16) -> (r: u16)
    ensures
        r == min_nonzero(x, p),
{
    if p == 0 || x < p {
        x
    } else {
        p
    }
}

impl<A: SimpleAudio> Sn76489Audio for Sn76489Impler<Sn76489State, A> {
    /// Sound can be made from a chip that can make it, onto a buffer of
    /// 1 to 0xFFFF samples, without the cycle count overflowing.
    open spec fn spec_can_queue(&self, target_cycles: u64) -> bool {
        &&& self.sn76489.sound_ok()
        &&& 0 < self.audio.spec_buffer_len() <= 0xFFFF
        &&& target_cycles + self.audio.spec_buffer_len() <= u64::MAX
    }

    open spec fn spec_queue(&self, target_cycles: u64) -> Self {
        let (sn76489, audio) = spec_queue(
            self.sn76489,
            self.audio,
            target_cycles,
            self.audio.spec_buffer_len(),
        );
        Sn76489Impler { sn76489, audio }
    }

    /// Make sound until the chip's cycles reach `target_cycles`, a buffer at
    /// a time, sending each buffer to the device. The first error of the
    /// device is returned at once, with nothing made after it.
    #[verifier::spinoff_prover]
    #[verifier::rlimit(40)]
    fn queue(&mut self, target_cycles: u64) -> (r: Result<(), String>)
        ensures
            old(self).sn76489.cycles >= target_cycles ==> r is Ok && *final(self) == *old(self),
            r is Ok ==> final(self).sn76489 == spec_rounds(
                old(self).sn76489,
                old(self).audio,
                old(self).audio.spec_buffer_len(),
                buffers_needed(
                    old(self).sn76489.cycles,
                    target_cycles,
                    old(self).audio.spec_buffer_len(),
                ),
            ).0,
            r is Ok ==> final(self).audio == spec_rounds(
                old(self).sn76489,
                old(self).audio,
                old(self).audio.spec_buffer_len(),
                buffers_needed(
                    old(self).sn76489.cycles,
                    target_cycles,
                    old(self).audio.spec_buffer_len(),
                ),
            ).1,
            r is Ok && old(self).sn76489.cycles < target_cycles ==> target_cycles
                <= final(self).sn76489.cycles < target_cycles + old(self).audio.spec_buffer_len(),
            final(self).sn76489.sound_ok(),
            final(self).audio.spec_buffer_len() == old(self).audio.spec_buffer_len(),
            r is Err ==> exists|n: nat|
                #[trigger] failed_send(old(self).sn76489, old(self).audio, target_cycles, final(self).sn76489, n),
    {
        let ghost len0 = self.audio.spec_buffer_len();
        let ghost s0 = self.sn76489;
        let ghost a0 = self.audio;
        let ghost target = spec_queue(self.sn76489, self.audio, target_cycles, len0);
        let ghost total = buffers_needed(s0.cycles, target_cycles, len0);
        let ghost mut n: nat = 0;
        let len = self.audio.buffer_len();
        while self.sn76489.cycles < target_cycles
            invariant
                len == len0,
                s0 == old(self).sn76489,
                a0 == old(self).audio,
                len0 == a0.spec_buffer_len(),
                self.audio.spec_buffer_len() == len,
                0 < len <= 0xFFFF,
                target_cycles + len <= u64::MAX,
                self.sn76489.sound_ok(),
                spec_queue(self.sn76489, self.audio, target_cycles, len) == target,
                (self.sn76489, self.audio) == spec_rounds(s0, a0, len0, n),
                self.sn76489.cycles == s0.cycles + n * len,
                total == buffers_needed(s0.cycles, target_cycles, len0),
                s0.cycles < target_cycles ==> n <= total,
                s0.cycles >= target_cycles ==> n == 0 && self.sn76489.cycles == s0.cycles,
            decreases (if self.sn76489.cycles < target_cycles {
                target_cycles - self.sn76489.cycles
            } else {
                0
            }),
        {
            let ghost sn = self.sn76489;
            let ghost an = self.audio;
            proof {
                lemma_buffers_needed(s0.cycles, target_cycles, len0, n as int);
            }
            self.fill_buffer(len);
            self.sn76489.cycles = self.sn76489.cycles + len as u64;
            match self.audio.queue_buffer() {
                Ok(()) => {
                    assert((self.sn76489, self.audio) == spec_round(sn, an, len));
                },
                Err(e) => {
                    assert(spec_rounds(s0, a0, len0, n) == (sn, an));
                    assert(failed_send(s0, a0, target_cycles, self.sn76489, n));
                    return Err(e);
                },
            }
            proof {
                assert(spec_rounds(s0, a0, len0, n + 1) == spec_round(sn, an, len));
                n = n + 1;
                assert(self.sn76489.cycles == s0.cycles + n * len) by (nonlinear_arith)
                    requires
                        self.sn76489.cycles == sn.cycles + len,
                        sn.cycles == s0.cycles + (n - 1) * len;
                lemma_buffers_needed(s0.cycles, target_cycles, len0, n as int);
            }
        }
        proof {
            if s0.cycles < target_cycles {
                lemma_buffers_needed(s0.cycles, target_cycles, len0, n as int);
            }
        }
        Ok(())
    }
}

} // verus!
