//! Host audio output: what decides, frame after frame, whether the samples
//! produced by the emulated sound chip reach the sound card, and the header
//! of the optional recording of what was sent.
//!
//! The sound card drains its queue continuously while the emulator fills it
//! once per frame: the regulation keeps a cushion in the queue without
//! letting latency grow without bound.

use vstd::prelude::*;

verus! {

/// Sampling rate of the emulated sound chip, in samples per second.
pub const SAMPLE_RATE: u32 = 44100;

/// Latency above which a frame is dropped rather than queued: 100 ms.
pub const MAX_LATENCY_SAMPLES: u32 = SAMPLE_RATE / 10;

/// Cushion rebuilt when the queue has run low: three frames, 60 ms.
pub const TARGET_LATENCY_SAMPLES: u32 = SAMPLE_RATE * 3 / 50;

/// Threshold below which the cushion is rebuilt: one frame, 20 ms.
pub const MIN_LATENCY_SAMPLES: u32 = SAMPLE_RATE / 50;

/// What to do with one frame of samples.
#[derive(Clone, Copy, Debug, PartialEq, Eq, Structural)]
pub enum Regulation {
    /// Too much latency piled up: the frame is dropped.
    Drop,
    /// The start-up cushion is being built: normal operation, not an
    /// incident.
    Prime { padding: u32 },
    /// The frame is sent, after `padding` samples of silence when the cushion
    /// had to be rebuilt on the way.
    Send { padding: u32 },
}

/// The decision for a frame, given the samples still queued and whether the
/// start-up cushion has been built already.
pub open spec fn spec_regulate(queued: u32, primed: bool) -> Regulation {
    if queued > MAX_LATENCY_SAMPLES {
        Regulation::Drop
    } else if queued < MIN_LATENCY_SAMPLES {
        let padding = (TARGET_LATENCY_SAMPLES - queued) as u32;
        if primed {
            Regulation::Send { padding }
        } else {
            Regulation::Prime { padding }
        }
    } else {
        Regulation::Send { padding: 0 }
    }
}

/// Decides the fate of a frame from what is still queued.
pub fn regulate(queued: u32, primed: bool) -> (r: Regulation)
    ensures
        r == spec_regulate(queued, primed),
        r is Drop <==> queued > MAX_LATENCY_SAMPLES,
        r is Prime <==> (queued < MIN_LATENCY_SAMPLES && !primed),
        r matches Regulation::Prime { padding } ==> queued + padding == TARGET_LATENCY_SAMPLES,
        r matches Regulation::Send { padding } ==> (padding == 0 || queued + padding
            == TARGET_LATENCY_SAMPLES),
        r matches Regulation::Send { padding } ==> (padding > 0 <==> queued < MIN_LATENCY_SAMPLES),
{
    if queued > MAX_LATENCY_SAMPLES {
        Regulation::Drop
    } else if queued < MIN_LATENCY_SAMPLES {
        let padding = TARGET_LATENCY_SAMPLES - queued;
        if primed {
            Regulation::Send { padding }
        } else {
            Regulation::Prime { padding }
        }
    } else {
        Regulation::Send { padding: 0 }
    }
}

/// `x + 1` in `u32`, wrapping around at the top as the release build of
/// `+=` does.
pub open spec fn bump(x: u32) -> u32 {
    if x < u32::MAX {
        (x + 1) as u32
    } else {
        0
    }
}

/// The regulation's record since the counters were last taken: refills,
/// silence inserted, frames dropped; and whether the start-up cushion has
/// been built.
pub struct RegulationStats {
    refills: u32,
    padded_samples: u64,
    dropped_frames: u32,
    primed: bool,
}

impl RegulationStats {
    /// Cushions rebuilt after the start-up one.
    pub closed spec fn spec_refills(&self) -> u32 {
        self.refills
    }

    /// Samples of silence inserted by those refills.
    pub closed spec fn spec_padded_samples(&self) -> u64 {
        self.padded_samples
    }

    /// Frames dropped for too much latency.
    pub closed spec fn spec_dropped_frames(&self) -> u32 {
        self.dropped_frames
    }

    /// The start-up cushion has been built.
    pub closed spec fn spec_primed(&self) -> bool {
        self.primed
    }

    pub fn new() -> (s: Self)
        ensures
            s.spec_refills() == 0,
            s.spec_padded_samples() == 0,
            s.spec_dropped_frames() == 0,
            !s.spec_primed(),
    {
        Self { refills: 0, padded_samples: 0, dropped_frames: 0, primed: false }
    }

    pub fn primed(&self) -> (r: bool)
        ensures
            r == self.spec_primed(),
    {
        self.primed
    }

    /// Decides the fate of a (non-empty) frame and records the decision.
    pub fn regulate_frame(&mut self, queued: u32) -> (r: Regulation)
        ensures
            r == spec_regulate(queued, old(self).spec_primed()),
            final(self).spec_primed() == (old(self).spec_primed() || r is Prime),
            final(self).spec_dropped_frames() == (if r is Drop {
                bump(old(self).spec_dropped_frames())
            } else {
                old(self).spec_dropped_frames()
            }),
            final(self).spec_refills() == (if r matches Regulation::Send { padding } && padding > 0 {
                bump(old(self).spec_refills())
            } else {
                old(self).spec_refills()
            }),
            final(self).spec_padded_samples() == (match r {
                Regulation::Send { padding } => (old(self).spec_padded_samples() + padding) % 0x1_0000_0000_0000_0000,
                _ => old(self).spec_padded_samples() as int,
            }),
    {
        let r = regulate(queued, self.primed);
        match r {
            Regulation::Drop => {
                self.dropped_frames = self.dropped_frames.wrapping_add(1);
            },
            Regulation::Prime { padding: _ } => {
                self.primed = true;
            },
            Regulation::Send { padding } => {
                if padding > 0 {
                    self.refills = self.refills.wrapping_add(1);
                    self.padded_samples = self.padded_samples.wrapping_add(padding as u64);
                }
            },
        }
        r
    }

    /// The counters since the last call (refills, samples of silence
    /// inserted, frames dropped), which start again from zero.
    pub fn take_counts(&mut self) -> (r: (u32, u64, u32))
        ensures
            r == (old(self).spec_refills(), old(self).spec_padded_samples(), old(self).spec_dropped_frames()),
            final(self).spec_refills() == 0,
            final(self).spec_padded_samples() == 0,
            final(self).spec_dropped_frames() == 0,
            final(self).spec_primed() == old(self).spec_primed(),
    {
        let r = (self.refills, self.padded_samples, self.dropped_frames);
        self.refills = 0;
        self.padded_samples = 0;
        self.dropped_frames = 0;
        r
    }
}

/// Samples the emulator produces per frame, and the sound card plays per
/// frame: 20 ms.
pub open spec fn frame_samples() -> int {
    (SAMPLE_RATE / 50) as int
}

/// One emulated frame against a sound card that plays one frame's worth of
/// samples in the meantime: the queue length and the priming after it, and
/// whether the frame cost a refill (a cushion rebuilt after start-up).
pub open spec fn frame_step(queued: u32, primed: bool) -> (int, bool, bool) {
    let played = |q: int| if q > frame_samples() { q - frame_samples() } else { 0 };
    match spec_regulate(queued, primed) {
        Regulation::Drop => (played(queued - frame_samples()), primed, false),
        Regulation::Prime { padding } => (played(queued + padding + frame_samples()), true, false),
        Regulation::Send { padding } => (
            played(queued + padding + frame_samples()),
            primed,
            padding > 0,
        ),
    }
}

/// The queue length, the priming and the number of refills after `n`
/// frames from the given state.
pub open spec fn frames_run(n: nat, queued: u32, primed: bool) -> (int, bool, nat)
    decreases n,
{
    if n == 0 {
        (queued as int, primed, 0)
    } else {
        let (q, p, refill) = frame_step(queued, primed);
        let (q2, p2, refills) = frames_run((n - 1) as nat, q as u32, p);
        (q2, p2, refills + if refill { 1nat } else { 0nat })
    }
}

/// A queue within the latency window is left alone: the frame is sent as
/// is, and the card plays as much as was added, so the queue stays where it
/// was, with no refill.
pub proof fn regulation_keeps_a_healthy_queue(queued: u32, primed: bool)
    requires
        MIN_LATENCY_SAMPLES <= queued <= MAX_LATENCY_SAMPLES,
    ensures
        spec_regulate(queued, primed) == (Regulation::Send { padding: 0 }),
        frame_step(queued, primed) == (queued as int, primed, false),
{
}

/// A queue that ran low is brought back to the cushion, inside the latency
/// window; the refill counts as an incident only once the start-up cushion
/// has been built.
pub proof fn regulation_rebuilds_the_cushion(queued: u32, primed: bool)
    requires
        queued < MIN_LATENCY_SAMPLES,
    ensures
        frame_step(queued, primed) == (TARGET_LATENCY_SAMPLES as int, true, primed),
        MIN_LATENCY_SAMPLES <= TARGET_LATENCY_SAMPLES <= MAX_LATENCY_SAMPLES,
{
}

/// An overfull queue shrinks by two frames per frame until it is back in the
/// latency window.
pub proof fn regulation_drains_an_overfull_queue(queued: u32, primed: bool)
    requires
        queued > MAX_LATENCY_SAMPLES,
    ensures
        frame_step(queued, primed) == (queued - 2 * frame_samples(), primed, false),
        frame_step(queued, primed).0 >= MAX_LATENCY_SAMPLES + 1 - 2 * frame_samples(),
{
}

/// The regulation settles: from an empty queue at start-up, every frame
/// after the first leaves the queue at the cushion, never refilling.
pub proof fn regulation_settles_from_startup(n: nat)
    requires
        n >= 1,
    ensures
        frames_run(n, 0, false) == (TARGET_LATENCY_SAMPLES as int, true, 0nat),
    decreases n,
{
    assert(frame_step(0, false) == (TARGET_LATENCY_SAMPLES as int, true, false));
    steady_state_is_kept((n - 1) as nat);
}

/// Once the queue sits at the cushion with the start-up done, it stays there
/// for any number of frames, with no refill.
pub proof fn steady_state_is_kept(n: nat)
    ensures
        frames_run(n, TARGET_LATENCY_SAMPLES, true) == (TARGET_LATENCY_SAMPLES as int, true, 0nat),
    decreases n,
{
    if n > 0 {
        regulation_keeps_a_healthy_queue(TARGET_LATENCY_SAMPLES, true);
        steady_state_is_kept((n - 1) as nat);
    }
}

/// Little-endian bytes of a 16-bit value.
pub open spec fn le16(x: u16) -> Seq<u8> {
    seq![(x % 256) as u8, (x / 256) as u8]
}

/// Little-endian bytes of a 32-bit value.
pub open spec fn le32(x: u32) -> Seq<u8> {
    seq![(x % 256) as u8, ((x / 256) % 256) as u8, ((x / 65536) % 256) as u8, (x / 16777216) as u8]
}

/// The value of four little-endian bytes.
pub open spec fn le32_value(b: Seq<u8>) -> int {
    b[0] + 256 * b[1] + 65536 * b[2] + 16777216 * b[3]
}

/// The largest sample count whose WAV sizes fit in the header's 32-bit
/// fields.
pub open spec fn max_wav_samples() -> int {
    (u32::MAX - 36) / 2
}

/// The 44-byte header of a mono 16-bit PCM WAV file at `SAMPLE_RATE`, for
/// `samples` samples of data.
pub open spec fn spec_wav_header(samples: u32) -> Seq<u8> {
    let data_len = (samples * 2) as u32;
    seq![0x52u8, 0x49, 0x46, 0x46] + le32((36 + data_len) as u32) + seq![
        0x57u8,
        0x41,
        0x56,
        0x45,
        0x66,
        0x6d,
        0x74,
        0x20,
    ] + le32(16) + le16(1) + le16(1) + le32(SAMPLE_RATE) + le32((SAMPLE_RATE * 2) as u32) + le16(2)
        + le16(16) + seq![0x64u8, 0x61, 0x74, 0x61] + le32(data_len)
}

fn push_le16(h: &mut Vec<u8>, x: u16)
    ensures
        final(h)@ == old(h)@ + le16(x),
{
    h.push((x % 256) as u8);
    h.push((x / 256) as u8);
    assert(final(h)@ =~= old(h)@ + le16(x));
}

fn push_le32(h: &mut Vec<u8>, x: u32)
    ensures
        final(h)@ == old(h)@ + le32(x),
{
    h.push((x % 256) as u8);
    h.push(((x / 256) % 256) as u8);
    h.push(((x / 65536) % 256) as u8);
    h.push((x / 16777216) as u8);
    assert(final(h)@ =~= old(h)@ + le32(x));
}

fn push_bytes4(h: &mut Vec<u8>, a: u8, b: u8, c: u8, d: u8)
    ensures
        final(h)@ == old(h)@ + seq![a, b, c, d],
{
    h.push(a);
    h.push(b);
    h.push(c);
    h.push(d);
    assert(final(h)@ =~= old(h)@ + seq![a, b, c, d]);
}

/// Header of a mono 16-bit WAV file at the sound chip's rate, holding
/// `samples` samples.
pub fn wav_header(samples: u32) -> (h: Vec<u8>)
    requires
        samples <= max_wav_samples(),
    ensures
        h@ == spec_wav_header(samples),
        h@.len() == 44,
{
    let data_len = samples * 2;
    let mut h: Vec<u8> = Vec::with_capacity(44);
    push_bytes4(&mut h, 0x52, 0x49, 0x46, 0x46);
    push_le32(&mut h, 36 + data_len);
    push_bytes4(&mut h, 0x57, 0x41, 0x56, 0x45);
    push_bytes4(&mut h, 0x66, 0x6d, 0x74, 0x20);
    push_le32(&mut h, 16);
    push_le16(&mut h, 1);
    push_le16(&mut h, 1);
    push_le32(&mut h, SAMPLE_RATE);
    push_le32(&mut h, SAMPLE_RATE * 2);
    push_le16(&mut h, 2);
    push_le16(&mut h, 16);
    push_bytes4(&mut h, 0x64, 0x61, 0x74, 0x61);
    push_le32(&mut h, data_len);
    assert(h@ =~= spec_wav_header(samples));
    h
}

/// Reading the size fields back out of the header gives the sizes it was
/// written for: the data chunk holds two bytes per sample, and the RIFF
/// chunk 36 bytes more.
pub proof fn wav_header_sizes_read_back(samples: u32)
    requires
        samples <= max_wav_samples(),
    ensures
        le32_value(spec_wav_header(samples).subrange(40, 44)) == 2 * samples,
        le32_value(spec_wav_header(samples).subrange(4, 8)) == 36 + 2 * samples,
        spec_wav_header(samples).len() == 44,
{
    let h = spec_wav_header(samples);
    let d = (samples * 2) as u32;
    let r = (36 + d) as u32;
    assert(h.subrange(40, 44) =~= le32(d));
    assert(h.subrange(4, 8) =~= le32(r));
    le32_reads_back(d);
    le32_reads_back(r);
}

/// The four bytes of `le32(x)` add back up to `x`.
pub proof fn le32_reads_back(x: u32)
    ensures
        le32_value(le32(x)) == x,
{
    let b0 = x % 256;
    let b1 = (x / 256) % 256;
    let b2 = (x / 65536) % 256;
    let b3 = x / 16777216;
    assert(x == b0 + 256 * b1 + 65536 * b2 + 16777216 * b3) by (nonlinear_arith)
        requires
            b0 == x % 256,
            b1 == (x / 256) % 256,
            b2 == (x / 65536) % 256,
            b3 == x / 16777216,
    ;
}

} // verus!
