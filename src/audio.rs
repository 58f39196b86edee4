use vstd::arithmetic::div_mod::{
    lemma_fundamental_div_mod, lemma_fundamental_div_mod_converse_div,
    lemma_fundamental_div_mod_converse_mod,
};
use vstd::arithmetic::mul::lemma_mul_is_distributive_add;
use crate::text::{joined, owned};
use vstd::prelude::*;

verus! {

/// Rate, in samples per second, of every buffer the capture engine hands out.
pub const TARGET_SAMPLE_RATE: u32 = 16000;

/// Phase of the resampling accumulator after `n` input frames, starting at phase `start`.
///
/// The accumulator counts in units of `1 / src`: every frame adds `tgt`, and
/// every emitted sample takes `src` away again.
pub open spec fn phase_after(start: nat, src: nat, tgt: nat, n: nat) -> nat
    decreases n,
{
    if n == 0 {
        start
    } else {
        (phase_after(start, src, tgt, (n - 1) as nat) + tgt) % src
    }
}

/// `k` copies of one sample.
pub open spec fn repeat_sample(x: i16, k: nat) -> Seq<i16> {
    Seq::new(k, |_i: int| x)
}

/// The output of the resampler for a run of mono frames, starting from phase `start`:
/// each frame is repeated once for every whole `src` that its `tgt` pushes the
/// accumulator across.
pub open spec fn resample(start: nat, src: nat, tgt: nat, monos: Seq<i16>) -> Seq<i16>
    decreases monos.len(),
{
    if monos.len() == 0 {
        Seq::empty()
    } else {
        let n = (monos.len() - 1) as nat;
        let p = phase_after(start, src, tgt, n);
        resample(start, src, tgt, monos.take(n as int)) + repeat_sample(monos[n as int], (p + tgt) / src)
    }
}

proof fn lemma_step_div_mod(a: int, t: int, s: int)
    requires
        a >= 0,
        t >= 0,
        s > 0,
    ensures
        (a + t) / s == a / s + (a % s + t) / s,
        (a + t) % s == (a % s + t) % s,
{
    let b = a % s + t;
    lemma_fundamental_div_mod(a, s);
    lemma_fundamental_div_mod(b, s);
    lemma_mul_is_distributive_add(s, a / s, b / s);
    assert(a + t == (a / s + b / s) * s + b % s) by {
        assert(s * (a / s + b / s) == (a / s + b / s) * s) by (nonlinear_arith);
    }
    lemma_fundamental_div_mod_converse_div(a + t, s, a / s + b / s, b % s);
    lemma_fundamental_div_mod_converse_mod(a + t, s, a / s + b / s, b % s);
}

proof fn lemma_phase_from_zero(src: nat, tgt: nat, n: nat)
    requires
        src > 0,
    ensures
        phase_after(0, src, tgt, n) == (n * tgt) % src,
    decreases n,
{
    if n > 0 {
        let m = (n - 1) as nat;
        lemma_phase_from_zero(src, tgt, m);
        assert(m * tgt + tgt == n * tgt) by (nonlinear_arith)
            requires
                m + 1 == n,
        ;
        assert(m * tgt >= 0) by (nonlinear_arith);
        lemma_step_div_mod((m * tgt) as int, tgt as int, src as int);
        assert(phase_after(0, src, tgt, n) == (phase_after(0, src, tgt, m) + tgt) % src);
    } else {
        assert(n * tgt == 0) by (nonlinear_arith)
            requires
                n == 0,
        ;
    }
}

/// Over any run of `n` frames from a fresh accumulator, the resampler emits
/// exactly `floor(n * tgt / src)` samples: it never drifts by a whole sample
/// from the exact count `n / ratio`, where `ratio = src / tgt`.
pub proof fn lemma_resample_count(src: nat, tgt: nat, monos: Seq<i16>)
    requires
        src > 0,
    ensures
        resample(0, src, tgt, monos).len() == (monos.len() * tgt) / src,
        resample(0, src, tgt, monos).len() * src <= monos.len() * tgt,
        monos.len() * tgt < (resample(0, src, tgt, monos).len() + 1) * src,
    decreases monos.len(),
{
    let n = monos.len();
    if n > 0 {
        let m = (n - 1) as nat;
        let init = monos.take(m as int);
        lemma_resample_count(src, tgt, init);
        lemma_phase_from_zero(src, tgt, m);
        assert(m * tgt + tgt == n * tgt) by (nonlinear_arith)
            requires
                m + 1 == n,
        ;
        assert(m * tgt >= 0) by (nonlinear_arith);
        lemma_step_div_mod((m * tgt) as int, tgt as int, src as int);
    }
    let len = resample(0, src, tgt, monos).len();
    let x = (monos.len() * tgt) as int;
    lemma_fundamental_div_mod(x, src as int);
    assert(len * src <= x && x < (len + 1) * src) by (nonlinear_arith)
        requires
            x == src * len + x % (src as int),
            0 <= x % (src as int) < src,
    ;
}


proof fn lemma_phase_concat(start: nat, src: nat, tgt: nat, m: nat, n: nat)
    ensures
        phase_after(start, src, tgt, m + n) == phase_after(phase_after(start, src, tgt, m), src, tgt, n),
    decreases n,
{
    if n > 0 {
        lemma_phase_concat(start, src, tgt, m, (n - 1) as nat);
        assert((m + n - 1) as nat == m + (n - 1) as nat);
    }
}

/// Feeding two runs of frames one after the other gives the same output as
/// feeding them as one run: the output does not depend on where the input is
/// cut into chunks.
pub proof fn lemma_resample_chunked(start: nat, src: nat, tgt: nat, a: Seq<i16>, b: Seq<i16>)
    ensures
        resample(start, src, tgt, a + b) == resample(start, src, tgt, a) + resample(
            phase_after(start, src, tgt, a.len()),
            src,
            tgt,
            b,
        ),
        phase_after(start, src, tgt, (a + b).len()) == phase_after(
            phase_after(start, src, tgt, a.len()),
            src,
            tgt,
            b.len(),
        ),
    decreases b.len(),
{
    let q = phase_after(start, src, tgt, a.len());
    lemma_phase_concat(start, src, tgt, a.len(), b.len());
    if b.len() == 0 {
        assert(a + b =~= a);
        assert(resample(q, src, tgt, b) =~= Seq::<i16>::empty());
        assert(resample(start, src, tgt, a) + resample(q, src, tgt, b) =~= resample(start, src, tgt, a));
    } else {
        let n = (b.len() - 1) as nat;
        let b1 = b.take(n as int);
        lemma_resample_chunked(start, src, tgt, a, b1);
        lemma_phase_concat(start, src, tgt, a.len(), n);
        let ab = a + b;
        assert(ab.take((ab.len() - 1) as int) =~= a + b1);
        assert(ab[ab.len() - 1] == b[n as int]);
        assert((ab.len() - 1) as nat == a.len() + n);
        let step = repeat_sample(b[n as int], (phase_after(q, src, tgt, n) + tgt) / src);
        assert(phase_after(start, src, tgt, (ab.len() - 1) as nat) == phase_after(q, src, tgt, n));
        assert(resample(start, src, tgt, ab) == resample(start, src, tgt, a + b1) + step);
        assert(resample(q, src, tgt, b) == resample(q, src, tgt, b1) + step);
        assert(resample(start, src, tgt, ab) =~= resample(start, src, tgt, a) + resample(q, src, tgt, b));
    }
}

/// Sum of a run of samples.
pub open spec fn sample_sum(s: Seq<i16>) -> int
    decreases s.len(),
{
    if s.len() == 0 {
        0
    } else {
        sample_sum(s.drop_last()) + s.last()
    }
}

/// The mono value of one input frame: the floor of the mean over `channels`.
pub open spec fn frame_mono(frame: Seq<i16>, channels: nat) -> int {
    sample_sum(frame) / (channels as int)
}

/// Interleaved input split into whole frames of `channels` samples, each
/// mixed down to mono. A trailing partial frame is not a frame.
pub open spec fn monos_of(data: Seq<i16>, channels: nat) -> Seq<i16>
    recommends
        channels > 0,
{
    Seq::new(
        data.len() / channels,
        |k: int| frame_mono(data.subrange(k * channels, k * channels + channels), channels) as i16,
    )
}

/// Mixes one frame down to mono.
fn mix_frame(data: &[i16], start: usize, end: usize, channels: u16) -> (m: i16)
    requires
        start < end <= data@.len(),
        end - start <= channels,
        channels > 0,
    ensures
        m as int == frame_mono(data@.subrange(start as int, end as int), channels as nat),
{
    let mut sum: i64 = 0;
    let mut i: usize = start;
    while i < end
        invariant
            start <= i <= end <= data@.len(),
            end - start <= channels,
            sum == sample_sum(data@.subrange(start as int, i as int)),
            -32768 * (i - start) <= sum <= 32767 * (i - start),
        decreases end - i,
    {
        proof {
            let next = data@.subrange(start as int, i + 1);
            assert(next.drop_last() =~= data@.subrange(start as int, i as int));
        }
        sum = sum + data[i] as i64;
        i = i + 1;
    }
    let ch: i64 = channels as i64;
    let len = (end - start) as i64;
    let shifted: i64 = sum + 32768 * ch;
    proof {
        let si = sum as int;
        let ci = ch as int;
        let li = len as int;
        assert(-32768 * li >= -32768 * ci) by (nonlinear_arith)
            requires
                li <= ci,
        ;
        let q = si / ci;
        let r = si % ci;
        lemma_fundamental_div_mod(si, ci);
        assert(shifted as int == (q + 32768) * ci + r) by (nonlinear_arith)
            requires
                shifted as int == si + 32768 * ci,
                si == ci * q + r,
        ;
        lemma_fundamental_div_mod_converse_div(shifted as int, ci, q + 32768, r);
        assert(q >= -32768 && q <= 32767) by (nonlinear_arith)
            requires
                si == ci * q + r,
                0 <= r < ci,
                -32768 * ci <= si <= 32767 * ci,
                ci > 0,
        ;
    }
    (shifted / ch - 32768) as i16
}

/// The fractional-accumulator resampler, in exact integer arithmetic: the
/// accumulator counts in units of `1 / source_rate`.
pub struct Resampler {
    source_rate: u32,
    target_rate: u32,
    phase: u64,
}

/// What a resampler holds: its two rates and its accumulator.
pub ghost struct ResamplerView {
    pub source_rate: nat,
    pub target_rate: nat,
    pub phase: nat,
}

impl View for Resampler {
    type V = ResamplerView;

    closed spec fn view(&self) -> ResamplerView {
        ResamplerView {
            source_rate: self.source_rate as nat,
            target_rate: self.target_rate as nat,
            phase: self.phase as nat,
        }
    }
}

impl Resampler {
    /// Both rates are positive and the accumulator is below one output sample.
    pub closed spec fn wf(&self) -> bool {
        self.source_rate > 0 && self.target_rate > 0 && self.phase < self.source_rate
    }

    pub fn new(source_rate: u32, target_rate: u32) -> (r: Self)
        requires
            source_rate > 0,
            target_rate > 0,
        ensures
            r.wf(),
            r@ == (ResamplerView {
                source_rate: source_rate as nat,
                target_rate: target_rate as nat,
                phase: 0,
            }),
    {
        Resampler { source_rate, target_rate, phase: 0 }
    }

    /// Feeds one mono frame, appending to `out` as many copies of it as the
    /// accumulator crosses whole output samples.
    pub fn push_frame(&mut self, mono: i16, out: &mut Vec<i16>)
        requires
            old(self).wf(),
        ensures
            final(self).wf(),
            final(self)@.source_rate == old(self)@.source_rate,
            final(self)@.target_rate == old(self)@.target_rate,
            final(self)@.phase == (old(self)@.phase + old(self)@.target_rate) % old(self)@.source_rate,
            final(out)@ == old(out)@ + repeat_sample(
                mono,
                (old(self)@.phase + old(self)@.target_rate) / old(self)@.source_rate,
            ),
    {
        let ghost start = self.phase as int;
        let ghost out0 = out@;
        let ghost src = self.source_rate as int;
        let ghost tgt = self.target_rate as int;
        self.phase = self.phase + self.target_rate as u64;
        let mut k: u64 = 0;
        while self.phase >= self.source_rate as u64
            invariant
                self.source_rate == src,
                self.target_rate == tgt,
                src > 0,
                tgt > 0,
                self.phase + k * src == start + tgt,
                k <= start + tgt,
                0 <= start <= u32::MAX,
                out@ == out0 + repeat_sample(mono, k as nat),
            decreases self.phase,
        {
            proof {
                assert((k + 1) * src == k * src + src) by (nonlinear_arith);
                assert(k * src >= k) by (nonlinear_arith)
                    requires
                        src > 0,
                        k >= 0,
                ;
            }
            out.push(mono);
            self.phase = self.phase - self.source_rate as u64;
            k = k + 1;
            assert(out@ =~= out0 + repeat_sample(mono, k as nat));
        }
        proof {
            assert(start + tgt == k * src + self.phase);
            lemma_fundamental_div_mod_converse_div(start + tgt, src, k as int, self.phase as int);
            lemma_fundamental_div_mod_converse_mod(start + tgt, src, k as int, self.phase as int);
        }
    }
}


/// Failures of the capture device or of audio encoding.
#[derive(Debug, Clone)]
pub enum AudioError {
    NoInputDevice,
    Stream(String),
    Encoding(String),
    Device(String),
}

impl AudioError {
    pub open spec fn message_spec(&self) -> Seq<char> {
        match self {
            AudioError::NoInputDevice => "No input device found"@,
            AudioError::Stream(m) => "Stream error: "@ + m@,
            AudioError::Encoding(m) => "Encoding error: "@ + m@,
            AudioError::Device(m) => "Device error: "@ + m@,
        }
    }

    /// A readable description of the error.
    pub fn message(&self) -> (r: String)
        ensures
            r@ == self.message_spec(),
    {
        match self {
            AudioError::NoInputDevice => owned("No input device found"),
            AudioError::Stream(m) => joined("Stream error: ", m.as_str()),
            AudioError::Encoding(m) => joined("Encoding error: ", m.as_str()),
            AudioError::Device(m) => joined("Device error: ", m.as_str()),
        }
    }
}

/// Whether the capture engine is running.
#[derive(Debug, Clone, Copy, PartialEq, Eq, Structural)]
pub enum RecordingState {
    Idle,
    Recording,
}

/// The native format of an opened input device.
#[derive(Debug, Clone, Copy, PartialEq, Eq, Structural)]
pub struct InputFormat {
    pub sample_rate: u32,
    pub channels: u16,
}

/// The capture engine: takes interleaved frames at the device's own rate and
/// channel count, and keeps a mono buffer at `TARGET_SAMPLE_RATE`.
pub struct AudioRecorder {
    buffer: Vec<i16>,
    sample_rate: u32,
    channels: u16,
    state: RecordingState,
    input_channels: u16,
    resampler: Resampler,
}

/// What a recorder holds.
pub ghost struct RecorderView {
    pub state: RecordingState,
    pub samples: Seq<i16>,
    pub input_rate: nat,
    pub input_channels: nat,
    pub phase: nat,
}

impl View for AudioRecorder {
    type V = RecorderView;

    closed spec fn view(&self) -> RecorderView {
        RecorderView {
            state: self.state,
            samples: self.buffer@,
            input_rate: self.resampler@.source_rate,
            input_channels: self.input_channels as nat,
            phase: self.resampler@.phase,
        }
    }
}

proof fn lemma_frame_fits(k: int, ch: int, len: int)
    requires
        ch > 0,
        len >= 0,
        0 <= k < len / ch,
    ensures
        0 <= k * ch,
        k * ch + ch <= len,
{
    lemma_fundamental_div_mod(len, ch);
    assert(k * ch + ch <= len && 0 <= k * ch) by (nonlinear_arith)
        requires
            len == ch * (len / ch) + len % ch,
            0 <= len % ch,
            k + 1 <= len / ch,
            ch > 0,
            k >= 0,
    ;
}

/// A running recorder after it took interleaved `data`: its whole frames,
/// mixed to mono and resampled, appended to the buffer.
pub open spec fn after_input(r: RecorderView, data: Seq<i16>) -> RecorderView {
    let monos = monos_of(data, r.input_channels);
    RecorderView {
        samples: r.samples + resample(r.phase, r.input_rate, TARGET_SAMPLE_RATE as nat, monos),
        phase: phase_after(r.phase, r.input_rate, TARGET_SAMPLE_RATE as nat, monos.len()),
        ..r
    }
}

proof fn lemma_monos_concat(a: Seq<i16>, b: Seq<i16>, ch: nat)
    requires
        ch > 0,
        a.len() % ch == 0,
    ensures
        monos_of(a + b, ch) == monos_of(a, ch) + monos_of(b, ch),
{
    let na = a.len() / ch;
    let nb = b.len() / ch;
    let ab = a + b;
    lemma_fundamental_div_mod(a.len() as int, ch as int);
    lemma_fundamental_div_mod(b.len() as int, ch as int);
    assert(a.len() == na * ch) by (nonlinear_arith)
        requires
            a.len() == ch * na + 0,
    ;
    assert(ab.len() == (na + nb) * ch + b.len() % ch) by (nonlinear_arith)
        requires
            ab.len() == a.len() + b.len(),
            a.len() == na * ch,
            b.len() == ch * nb + b.len() % ch,
    ;
    lemma_fundamental_div_mod_converse_div(ab.len() as int, ch as int, (na + nb) as int, (b.len() % ch) as int);
    let lhs = monos_of(ab, ch);
    let rhs = monos_of(a, ch) + monos_of(b, ch);
    assert forall|k: int| 0 <= k < lhs.len() implies lhs[k] == rhs[k] by {
        if k < na {
            lemma_frame_fits(k, ch as int, a.len() as int);
            assert(ab.subrange(k * ch, k * ch + ch) =~= a.subrange(k * ch, k * ch + ch));
        } else {
            let j = k - na;
            lemma_frame_fits(j, ch as int, b.len() as int);
            assert(k * ch == a.len() + j * ch) by (nonlinear_arith)
                requires
                    j == k - na,
                    a.len() == na * ch,
            ;
            assert(ab.subrange(k * ch, k * ch + ch) =~= b.subrange(j * ch, j * ch + ch));
        }
    }
    assert(lhs =~= rhs);
}

/// Input cut at frame boundaries gives the same recorder as the same input
/// taken in one piece: the buffer does not depend on how the device chunks
/// its callbacks.
pub proof fn lemma_input_chunked(r: RecorderView, a: Seq<i16>, b: Seq<i16>)
    requires
        r.input_channels > 0,
        a.len() % r.input_channels == 0,
    ensures
        after_input(after_input(r, a), b) == after_input(r, a + b),
{
    let ch = r.input_channels;
    lemma_monos_concat(a, b, ch);
    lemma_resample_chunked(r.phase, r.input_rate, TARGET_SAMPLE_RATE as nat, monos_of(a, ch), monos_of(b, ch));
    assert(after_input(after_input(r, a), b).samples =~= after_input(r, a + b).samples);
}

/// From a fresh accumulator, `n` whole input frames at `input_rate` add
/// exactly `floor(n * 16000 / input_rate)` samples: within one sample of
/// `n / ratio`, however long the run.
pub proof fn lemma_fresh_input_count(r: RecorderView, data: Seq<i16>)
    requires
        r.phase == 0,
        r.input_rate > 0,
        r.input_channels > 0,
    ensures
        ({
            let n = data.len() / r.input_channels;
            let k = after_input(r, data).samples.len() - r.samples.len();
            &&& k == (n * TARGET_SAMPLE_RATE) as int / (r.input_rate as int)
            &&& k * r.input_rate <= n * TARGET_SAMPLE_RATE < (k + 1) * r.input_rate
        }),
{
    let monos = monos_of(data, r.input_channels);
    lemma_resample_count(r.input_rate, TARGET_SAMPLE_RATE as nat, monos);
}

impl AudioRecorder {
    /// Output is mono at the target rate, and the accumulator is well formed.
    pub closed spec fn wf(&self) -> bool {
        &&& self.sample_rate == TARGET_SAMPLE_RATE
        &&& self.channels == 1
        &&& self.input_channels > 0
        &&& self.resampler.wf()
        &&& self.resampler@.target_rate == TARGET_SAMPLE_RATE
    }

    /// A stopped recorder with an empty buffer.
    pub fn new() -> (r: Result<Self, AudioError>)
        ensures
            r matches Ok(rec) && rec.wf() && rec@.state == RecordingState::Idle
                && rec@.samples.len() == 0,
    {
        Ok(
            AudioRecorder {
                buffer: Vec::new(),
                sample_rate: TARGET_SAMPLE_RATE,
                channels: 1,
                state: RecordingState::Idle,
                input_channels: 1,
                resampler: Resampler::new(TARGET_SAMPLE_RATE, TARGET_SAMPLE_RATE),
            },
        )
    }

    /// Starts capturing from a device with the given native format. Starting a
    /// running recorder changes nothing; a format with no rate or no channels is
    /// a device error and changes nothing.
    pub fn start(&mut self, format: InputFormat) -> (r: Result<(), AudioError>)
        requires
            old(self).wf(),
        ensures
            final(self).wf(),
            old(self)@.state == RecordingState::Recording ==> r is Ok && final(self)@ == old(self)@,
            old(self)@.state == RecordingState::Idle && (format.sample_rate == 0
                || format.channels == 0) ==> r is Err && r->Err_0 is Device && final(self)@
                == old(self)@,
            old(self)@.state == RecordingState::Idle && format.sample_rate > 0 && format.channels
                > 0 ==> r is Ok && final(self)@ == (RecorderView {
                state: RecordingState::Recording,
                samples: Seq::empty(),
                input_rate: format.sample_rate as nat,
                input_channels: format.channels as nat,
                phase: 0,
            }),
    {
        if self.state == RecordingState::Recording {
            return Ok(());
        }
        if format.sample_rate == 0 || format.channels == 0 {
            return Err(AudioError::Device(owned("input format has no sample rate or no channels")));
        }
        self.buffer = Vec::new();
        self.resampler = Resampler::new(format.sample_rate, self.sample_rate);
        self.input_channels = format.channels;
        self.state = RecordingState::Recording;
        Ok(())
    }

    /// Stops capturing and hands over everything captured since the start,
    /// leaving the buffer empty. On a recorder that is not running it returns
    /// an empty buffer and changes nothing.
    pub fn stop(&mut self) -> (r: Result<Vec<i16>, AudioError>)
        requires
            old(self).wf(),
        ensures
            final(self).wf(),
            r is Ok,
            old(self)@.state == RecordingState::Idle ==> r->Ok_0@.len() == 0 && final(self)@
                == old(self)@,
            old(self)@.state == RecordingState::Recording ==> r->Ok_0@ == old(self)@.samples
                && final(self)@ == (RecorderView {
                state: RecordingState::Idle,
                samples: Seq::empty(),
                ..old(self)@
            }),
    {
        if self.state != RecordingState::Recording {
            return Ok(Vec::new());
        }
        self.state = RecordingState::Idle;
        Ok(self.drain_buffer())
    }

    /// Empties the buffer and returns what it held, without stopping capture.
    pub fn drain_buffer(&mut self) -> (r: Vec<i16>)
        requires
            old(self).wf(),
        ensures
            final(self).wf(),
            r@ == old(self)@.samples,
            final(self)@ == (RecorderView { samples: Seq::empty(), ..old(self)@ }),
    {
        let mut taken: Vec<i16> = Vec::new();
        std::mem::swap(&mut taken, &mut self.buffer);
        taken
    }

    /// Rate of the buffer, in samples per second.
    pub fn sample_rate(&self) -> (r: u32)
        requires
            self.wf(),
        ensures
            r == TARGET_SAMPLE_RATE,
    {
        self.sample_rate
    }

    /// Channel count of the buffer.
    pub fn channels(&self) -> (r: u16)
        requires
            self.wf(),
        ensures
            r == 1,
    {
        self.channels
    }

    /// Takes interleaved input from the device: each whole frame is mixed to
    /// mono and run through the resampler into the buffer. Input that arrives
    /// while the recorder is stopped is dropped.
    pub fn push_input(&mut self, data: &[i16])
        requires
            old(self).wf(),
        ensures
            final(self).wf(),
            old(self)@.state == RecordingState::Idle ==> final(self)@ == old(self)@,
            old(self)@.state == RecordingState::Recording ==> final(self)@ == after_input(
                old(self)@,
                data@,
            ),
    {
        if self.state != RecordingState::Recording {
            return;
        }
        let ghost v0 = self@;
        let ghost monos = monos_of(data@, v0.input_channels);
        let ghost src = v0.input_rate;
        let ghost tgt = TARGET_SAMPLE_RATE as nat;
        let ch = self.input_channels as usize;
        let nframes = data.len() / ch;
        let mut k: usize = 0;
        while k < nframes
            invariant
                self.wf(),
                self@.state == v0.state,
                self@.input_rate == src,
                tgt == TARGET_SAMPLE_RATE as nat,
                self@.input_channels == v0.input_channels,
                ch == v0.input_channels,
                ch > 0,
                nframes == data@.len() / (ch as nat),
                monos == monos_of(data@, v0.input_channels),
                monos.len() == nframes,
                k <= nframes,
                self@.samples == v0.samples + resample(v0.phase, src, tgt, monos.take(k as int)),
                self@.phase == phase_after(v0.phase, src, tgt, k as nat),
            decreases nframes - k,
        {
            proof {
                lemma_frame_fits(k as int, ch as int, data@.len() as int);
                assert(k * ch + ch <= data@.len());
                assert(data@.len() == data.len());
            }
            let start = k * ch;
            let m = mix_frame(data, start, start + ch, self.input_channels);
            let ghost before = self.buffer@;
            self.resampler.push_frame(m, &mut self.buffer);
            proof {
                assert(m == monos[k as int]);
                let t = monos.take(k + 1);
                assert(t.take(k as int) =~= monos.take(k as int));
                assert(t[k as int] == m);
                let step = repeat_sample(m, (phase_after(v0.phase, src, tgt, k as nat) + tgt) / src);
                assert(resample(v0.phase, src, tgt, t) == resample(v0.phase, src, tgt, monos.take(k as int)) + step);
                assert(before == v0.samples + resample(v0.phase, src, tgt, monos.take(k as int)));
                assert(self.buffer@ == before + step);
                assert(self.buffer@ =~= v0.samples + resample(v0.phase, src, tgt, t));
                assert(phase_after(v0.phase, src, tgt, (k + 1) as nat) == (phase_after(
                    v0.phase,
                    src,
                    tgt,
                    k as nat,
                ) + tgt) % src);
            }
            k = k + 1;
        }
        proof {
            assert(monos.take(nframes as int) =~= monos);
        }
    }
}


/// The most samples whose PCM encoding is addressable on every target.
pub const MAX_PCM_SAMPLES: usize = 2147483647;

/// The most samples a WAV file can hold: its 32-bit size fields must fit
/// the header plus two bytes per sample.
pub const MAX_WAV_SAMPLES: usize = 2147483617;

/// A sample as the unsigned 16-bit word that holds its two's complement.
pub open spec fn word_of(x: i16) -> int {
    if x < 0 {
        x + 65536
    } else {
        x as int
    }
}

/// Headerless PCM: each sample as two bytes, little-endian.
pub open spec fn pcm_le(s: Seq<i16>) -> Seq<u8> {
    Seq::new(
        2 * s.len(),
        |i: int|
            if i % 2 == 0 {
                (word_of(s[i / 2]) % 256) as u8
            } else {
                (word_of(s[i / 2]) / 256) as u8
            },
    )
}

/// The sample that two little-endian bytes hold.
pub open spec fn sample_of_le(lo: u8, hi: u8) -> i16 {
    let w = lo + 256 * hi;
    if w >= 32768 {
        (w - 65536) as i16
    } else {
        w as i16
    }
}

/// Reads headerless little-endian PCM back into samples.
pub open spec fn pcm_samples(b: Seq<u8>) -> Seq<i16> {
    Seq::new(b.len() / 2, |k: int| sample_of_le(b[2 * k], b[2 * k + 1]))
}

/// Encodes samples as headerless 16-bit little-endian PCM.
pub fn encode_to_pcm(samples: &[i16]) -> (r: Vec<u8>)
    requires
        2 * samples@.len() <= usize::MAX,
    ensures
        r@ == pcm_le(samples@),
{
    let mut out: Vec<u8> = Vec::new();
    let mut i: usize = 0;
    while i < samples.len()
        invariant
            i <= samples@.len(),
            2 * samples@.len() <= usize::MAX,
            out@.len() == 2 * i,
            forall|j: int| 0 <= j < 2 * i ==> #[trigger] out@[j] == pcm_le(samples@)[j],
        decreases samples@.len() - i,
    {
        let x = samples[i];
        let w: u32 = if x < 0 {
            (x as i32 + 65536) as u32
        } else {
            x as u32
        };
        out.push((w % 256) as u8);
        out.push((w / 256) as u8);
        i = i + 1;
    }
    assert(out@ =~= pcm_le(samples@));
    out
}

/// Decoding the PCM encoding of any samples gives those samples back.
pub proof fn lemma_pcm_round_trip(s: Seq<i16>)
    ensures
        pcm_samples(pcm_le(s)) == s,
{
    let b = pcm_le(s);
    assert forall|k: int| 0 <= k < s.len() implies #[trigger] pcm_samples(b)[k] == s[k] by {
        assert((2 * k) / 2 == k);
        assert((2 * k + 1) / 2 == k);
        assert((2 * k) % 2 == 0);
        assert((2 * k + 1) % 2 == 1);
        let w = word_of(s[k]);
        assert(w % 256 + 256 * (w / 256) == w);
    }
    assert(pcm_samples(b) =~= s);
}

/// Four bytes of `x`, little-endian.
pub open spec fn le32(x: int) -> Seq<u8> {
    seq![
        (x % 256) as u8,
        ((x / 256) % 256) as u8,
        ((x / 65536) % 256) as u8,
        ((x / 16777216) % 256) as u8,
    ]
}

/// Two bytes of `x`, little-endian.
pub open spec fn le16(x: int) -> Seq<u8> {
    seq![(x % 256) as u8, ((x / 256) % 256) as u8]
}

/// The speaker mask of the first `channels` positions (at most 18 exist).
pub open spec fn channel_mask(channels: nat) -> int {
    if channels > 18 {
        0x3ffff
    } else {
        vstd::arithmetic::power2::pow2(channels) - 1
    }
}

/// The size of the header in front of the samples: 44 bytes for one or two
/// channels, 68 for more.
pub open spec fn wav_header_len(channels: nat) -> nat {
    if channels <= 2 {
        44
    } else {
        68
    }
}

/// The header of a 16-bit integer PCM WAV file with `n` samples. One or two
/// channels get the plain PCMWAVEFORMAT; more get WAVEFORMATEXTENSIBLE with
/// the PCM sub-format.
pub open spec fn wav_header(sample_rate: nat, channels: nat, n: nat) -> Seq<u8> {
    let riff = (wav_header_len(channels) - 8 + 2 * n) as int;
    let rates = le16(channels as int) + le32(sample_rate as int) + le32(
        (sample_rate * 2 * channels) as int,
    ) + le16((2 * channels) as int);
    let fmt = if channels <= 2 {
        le32(16) + le16(1) + rates + le16(16)
    } else {
        le32(40) + le16(0xfffe) + rates + le16(16) + le16(22) + le16(16) + le32(
            channel_mask(channels),
        ) + seq![1u8, 0, 0, 0, 0, 0, 16, 0, 128, 0, 0, 170, 0, 56, 155, 113]
    };
    seq![82u8, 73, 70, 70] + le32(riff) + seq![87u8, 65, 86, 69] + seq![102u8, 109, 116, 32]
        + fmt + seq![100u8, 97, 116, 97] + le32((2 * n) as int)
}

/// A WAV file holding `samples`, 16-bit integer PCM.
pub open spec fn wav_bytes(samples: Seq<i16>, sample_rate: nat, channels: nat) -> Seq<u8> {
    wav_header(sample_rate, channels, samples.len()) + pcm_le(samples)
}

/// hound's error, carried through from the WAV writer.
#[verifier::external_type_specification]
#[verifier::external_body]
pub struct ExHoundError(hound::Error);

/// Relies on hound::WavWriter (new, write_sample, finalize) writing into an
/// in-memory cursor. At 16 bits hound writes the header of `wav_header` (the
/// plain PCMWAVEFORMAT up to two channels, WAVEFORMATEXTENSIBLE above), then
/// each sample little-endian. Writes into a Vec never fail; finalize reports an
/// unfinished sample when the count is not a multiple of the channel count.
/// The bounds keep hound's u32 arithmetic on rates and lengths from overflowing.
#[verifier::external_body]
fn write_wav(samples: &[i16], sample_rate: u32, channels: u16) -> (r: Result<Vec<u8>, hound::Error>)
    requires
        channels >= 1,
        sample_rate >= 1,
        sample_rate * 2 * channels <= u32::MAX,
        60 + 2 * samples@.len() <= u32::MAX,
    ensures
        r is Ok <==> samples@.len() % (channels as nat) == 0,
        r is Ok ==> r->Ok_0@ == wav_bytes(samples@, sample_rate as nat, channels as nat),
{
    let spec = hound::WavSpec {
        channels,
        sample_rate,
        bits_per_sample: 16,
        sample_format: hound::SampleFormat::Int,
    };
    let mut cursor = std::io::Cursor::new(Vec::new());
    let mut writer = hound::WavWriter::new(&mut cursor, spec)?;
    for s in samples.iter() {
        writer.write_sample(*s)?;
    }
    writer.finalize()?;
    Ok(cursor.into_inner())
}

/// Encodes samples as a 16-bit integer PCM WAV file. A sample count that does
/// not fill whole frames is an encoding error.
pub fn encode_to_wav(samples: &[i16], sample_rate: u32, channels: u16) -> (r: Result<
    Vec<u8>,
    AudioError,
>)
    requires
        channels >= 1,
        sample_rate >= 1,
        sample_rate * 2 * channels <= u32::MAX,
        60 + 2 * samples@.len() <= u32::MAX,
    ensures
        r is Ok <==> samples@.len() % (channels as nat) == 0,
        r is Ok ==> r->Ok_0@ == wav_bytes(samples@, sample_rate as nat, channels as nat),
        r is Err ==> r->Err_0 is Encoding,
{
    match write_wav(samples, sample_rate, channels) {
        Ok(bytes) => Ok(bytes),
        Err(_) => Err(AudioError::Encoding(owned("sample count is not a whole number of frames"))),
    }
}

/// A WAV file written by `encode_to_wav` holds the samples exactly: reading its
/// data section as little-endian PCM gives them back.
pub proof fn lemma_wav_round_trip(samples: Seq<i16>, sample_rate: nat, channels: nat)
    ensures
        wav_bytes(samples, sample_rate, channels).len() == wav_header_len(channels) + 2
            * samples.len(),
        pcm_samples(wav_bytes(samples, sample_rate, channels).skip(wav_header_len(channels) as int))
            == samples,
{
    let w = wav_bytes(samples, sample_rate, channels);
    let h = wav_header_len(channels);
    assert(wav_header(sample_rate, channels, samples.len()).len() == h);
    assert(w.skip(h as int) =~= pcm_le(samples));
    lemma_pcm_round_trip(samples);
}

} // verus!
