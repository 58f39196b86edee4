use crate::asr::{
    asr_selection, create_asr_service, create_streaming_asr_service, AsrError, AsrProvider,
    AsrResult, QwenRealtimeAsr, StreamingAsrEvent,
};
use crate::audio::{
    after_input, encode_to_pcm, encode_to_wav, pcm_le, wav_bytes, AudioError, AudioRecorder,
    InputFormat, MAX_PCM_SAMPLES, MAX_WAV_SAMPLES,
    RecorderView, RecordingState, TARGET_SAMPLE_RATE,
};
use crate::config::AppConfig;
use crate::llm::{create_llm_service, llm_selection, LlmError, LlmProvider};
use crate::text::{joined, owned};
use vstd::prelude::*;

verus! {

/// Why a pipeline operation did not produce text.
#[derive(Debug, Clone)]
pub enum PipelineError {
    Audio(AudioError),
    Asr(AsrError),
    Llm(LlmError),
    Other(String),
    /// The operation was unwound by an explicit cancel.
    Cancelled,
    /// A start was requested while the pipeline was not idle.
    Busy,
    /// The recording held no signal at all: most likely the microphone
    /// permission is missing.
    NoSignal,
    /// The recording held only background noise: speak louder or closer.
    TooQuiet,
}

/// Text of the error for a recording without any signal.
pub const NO_SIGNAL_MESSAGE: &'static str = "The recording is silent: check that this application may use the microphone";

/// Text of the error for a recording that holds only background noise.
pub const TOO_QUIET_MESSAGE: &'static str = "The recording is too quiet: move closer to the microphone or speak louder";

impl PipelineError {
    /// A readable description of the error.
    pub fn message(&self) -> (r: String)
        ensures
            self matches PipelineError::Audio(e) ==> r@ == "Audio error: "@ + e.message_spec(),
            self matches PipelineError::Asr(e) ==> r@ == "ASR error: "@ + e.message_spec(),
            self matches PipelineError::Llm(e) ==> r@ == "LLM error: "@ + e.message_spec(),
            self matches PipelineError::Other(m) ==> r@ == "Pipeline error: "@ + m@,
            self is Cancelled ==> r@ == "Operation cancelled"@,
            self is Busy ==> r@ == "Pipeline is busy"@,
            self is NoSignal ==> r@ == NO_SIGNAL_MESSAGE@,
            self is TooQuiet ==> r@ == TOO_QUIET_MESSAGE@,
    {
        match self {
            PipelineError::Audio(e) => joined("Audio error: ", e.message().as_str()),
            PipelineError::Asr(e) => joined("ASR error: ", e.message().as_str()),
            PipelineError::Llm(e) => joined("LLM error: ", e.message().as_str()),
            PipelineError::Other(m) => joined("Pipeline error: ", m.as_str()),
            PipelineError::Cancelled => owned("Operation cancelled"),
            PipelineError::Busy => owned("Pipeline is busy"),
            PipelineError::NoSignal => owned(NO_SIGNAL_MESSAGE),
            PipelineError::TooQuiet => owned(TOO_QUIET_MESSAGE),
        }
    }
}

/// The pipeline's single authoritative state.
#[derive(Debug, Clone, Copy, PartialEq, Eq, Structural)]
pub enum PipelineState {
    Idle,
    Recording,
    Processing,
}

impl PipelineState {
    /// The state's code at the foreign boundary: 0, 1 and 2.
    pub fn code(&self) -> (r: u8)
        ensures
            r == state_code(*self),
    {
        match self {
            PipelineState::Idle => 0,
            PipelineState::Recording => 1,
            PipelineState::Processing => 2,
        }
    }
}

pub open spec fn state_code(s: PipelineState) -> u8 {
    match s {
        PipelineState::Idle => 0,
        PipelineState::Recording => 1,
        PipelineState::Processing => 2,
    }
}

/// The state a code stands for; unknown codes read as idle.
pub open spec fn state_of_code(v: u8) -> PipelineState {
    if v == 1 {
        PipelineState::Recording
    } else if v == 2 {
        PipelineState::Processing
    } else {
        PipelineState::Idle
    }
}

impl From<u8> for PipelineState {
    fn from(v: u8) -> (r: PipelineState)
        ensures
            r == state_of_code(v),
    {
        if v == 1 {
            PipelineState::Recording
        } else if v == 2 {
            PipelineState::Processing
        } else {
            PipelineState::Idle
        }
    }
}

impl vstd::std_specs::convert::FromSpecImpl<u8> for PipelineState {
    open spec fn obeys_from_spec() -> bool {
        true
    }

    open spec fn from_spec(v: u8) -> PipelineState {
        state_of_code(v)
    }
}

/// Magnitude of a sample; the most negative one has magnitude 32768.
pub open spec fn magnitude(x: i16) -> nat {
    if x < 0 {
        (-x) as nat
    } else {
        x as nat
    }
}

/// Largest magnitude in a run of samples (0 for none).
pub open spec fn peak(s: Seq<i16>) -> nat
    decreases s.len(),
{
    if s.len() == 0 {
        0
    } else {
        let p = peak(s.drop_last());
        let m = magnitude(s.last());
        if m > p {
            m
        } else {
            p
        }
    }
}

/// Largest magnitude in `samples`.
pub fn peak_amplitude(samples: &[i16]) -> (r: u32)
    ensures
        r == peak(samples@),
        r <= 32768,
{
    let mut best: u32 = 0;
    let mut i: usize = 0;
    while i < samples.len()
        invariant
            i <= samples@.len(),
            best == peak(samples@.subrange(0, i as int)),
            best <= 32768,
        decreases samples@.len() - i,
    {
        let x = samples[i];
        let m: u32 = if x < 0 {
            (0 - (x as i32)) as u32
        } else {
            x as u32
        };
        proof {
            assert(samples@.subrange(0, i + 1).drop_last() =~= samples@.subrange(0, i as int));
        }
        if m > best {
            best = m;
        }
        i = i + 1;
    }
    assert(samples@.subrange(0, samples@.len() as int) =~= samples@);
    best
}

/// The two calibration points of the signal check, as fractions of full
/// scale in parts per million: below `silence_ppm` the recording counts as
/// silent, below `quiet_ppm` as too quiet.
#[derive(Debug, Clone, Copy, PartialEq, Eq, Structural)]
pub struct AmplitudeGate {
    pub silence_ppm: u32,
    pub quiet_ppm: u32,
}

impl AmplitudeGate {
    pub open spec fn standard_spec() -> Self {
        AmplitudeGate { silence_ppm: 1000, quiet_ppm: 50000 }
    }

    /// Silence below 0.001 of full scale, too quiet below 0.05.
    pub fn standard() -> (r: Self)
        ensures
            r == Self::standard_spec(),
            r.silence_ppm == 1000,
            r.quiet_ppm == 50000,
    {
        AmplitudeGate { silence_ppm: 1000, quiet_ppm: 50000 }
    }
}

/// Whether a peak lies below a threshold given in parts per million of the
/// full scale 32767.
pub open spec fn below(peak: nat, ppm: nat) -> bool {
    peak * 1000000 < ppm * 32767
}

/// What the signal check found.
#[derive(Debug, Clone, Copy, PartialEq, Eq, Structural)]
pub enum SignalLevel {
    Silent,
    TooQuiet,
    Speech,
}

pub open spec fn signal_level(samples: Seq<i16>, gate: AmplitudeGate) -> SignalLevel {
    if below(peak(samples), gate.silence_ppm as nat) {
        SignalLevel::Silent
    } else if below(peak(samples), gate.quiet_ppm as nat) {
        SignalLevel::TooQuiet
    } else {
        SignalLevel::Speech
    }
}

/// Classifies a recording by its peak amplitude.
pub fn check_signal(samples: &[i16], gate: AmplitudeGate) -> (r: SignalLevel)
    ensures
        r == signal_level(samples@, gate),
{
    let p = peak_amplitude(samples) as u64;
    if p * 1000000 < gate.silence_ppm as u64 * 32767 {
        SignalLevel::Silent
    } else if p * 1000000 < gate.quiet_ppm as u64 * 32767 {
        SignalLevel::TooQuiet
    } else {
        SignalLevel::Speech
    }
}


/// The voice pipeline: one authoritative state, the cancellation flag, the
/// terminal-stop flag of streaming mode, and the capture engine.
///
/// Everything that waits (device, network, timers) happens outside; each
/// method here is one decision between two such waits, and tells its caller
/// what to do next.
pub struct VoicePipeline {
    config: AppConfig,
    recorder: AudioRecorder,
    gate: AmplitudeGate,
    state: PipelineState,
    cancelled: bool,
    streaming_mode: bool,
    should_stop: bool,
    session_active: bool,
    streaming_provider: Option<QwenRealtimeAsr>,
}

/// What a pipeline holds.
pub ghost struct PipelineView {
    pub config: AppConfig,
    pub gate: AmplitudeGate,
    pub state: PipelineState,
    pub cancelled: bool,
    pub streaming_mode: bool,
    /// The terminal-stop flag: set when the user ends the dictation, as opposed
    /// to the provider ending an utterance.
    pub should_stop: bool,
    /// Whether a streaming session handle is the active one.
    pub session_active: bool,
    /// The provider a streaming run selected when it began; every reconnect
    /// of the run uses it.
    pub streaming_provider: Option<QwenRealtimeAsr>,
    pub recorder: RecorderView,
}

impl View for VoicePipeline {
    type V = PipelineView;

    closed spec fn view(&self) -> PipelineView {
        PipelineView {
            config: self.config,
            gate: self.gate,
            state: self.state,
            cancelled: self.cancelled,
            streaming_mode: self.streaming_mode,
            should_stop: self.should_stop,
            session_active: self.session_active,
            streaming_provider: self.streaming_provider,
            recorder: self.recorder@,
        }
    }
}

/// The recorder after a stop: stopped, and its buffer handed over if it ran.
pub open spec fn recorder_stopped(r: RecorderView) -> RecorderView {
    if r.state == RecordingState::Recording {
        RecorderView { state: RecordingState::Idle, samples: Seq::empty(), ..r }
    } else {
        r
    }
}

/// The pipeline back at rest after a finished, failed or cancelled operation.
pub open spec fn at_rest(v: PipelineView) -> PipelineView {
    PipelineView { state: PipelineState::Idle, recorder: recorder_stopped(v.recorder), ..v }
}

/// The pipeline after a cancelled operation has unwound: at rest, flag cleared.
pub open spec fn unwound(v: PipelineView) -> PipelineView {
    PipelineView { cancelled: false, ..at_rest(v) }
}

/// What `cancel` does: a recording is stopped and discarded at once; a
/// processing run is only flagged, to unwind at its next checkpoint; an idle
/// pipeline is left alone.
pub open spec fn cancel_effect(v: PipelineView) -> PipelineView {
    match v.state {
        PipelineState::Idle => v,
        PipelineState::Recording => unwound(v),
        PipelineState::Processing => PipelineView { cancelled: true, ..v },
    }
}

/// The next thing a batch stop-and-process run needs from its caller.
#[derive(Debug)]
pub enum BatchStep {
    /// The run is over, with this outcome.
    Finished(Result<String, PipelineError>),
    /// Send `audio`, recorded at `sample_rate`, to `provider`, and hand the
    /// outcome to `after_recognition`.
    Recognize { provider: AsrProvider, audio: Vec<u8>, sample_rate: u32 },
    /// Ask `provider` to refine `text`, and hand the outcome to
    /// `after_refinement`.
    Refine { provider: LlmProvider, text: String },
}

/// Whether a step ends the run with the cancellation error.
pub open spec fn is_cancelled_step(b: BatchStep) -> bool {
    b matches BatchStep::Finished(Err(PipelineError::Cancelled))
}

/// Whether a step ends the run with empty text.
pub open spec fn is_empty_finish(b: BatchStep) -> bool {
    b matches BatchStep::Finished(Ok(t)) && t@.len() == 0
}

/// The run's verdict on a non-empty recording that it is about to encode.
pub open spec fn recording_verdict(v: PipelineView, samples: Seq<i16>) -> Option<PipelineError> {
    match signal_level(samples, v.gate) {
        SignalLevel::Silent => Some(PipelineError::NoSignal),
        SignalLevel::TooQuiet => Some(PipelineError::TooQuiet),
        SignalLevel::Speech => None,
    }
}

/// The payload a provider gets for a recording.
pub open spec fn payload_for(provider: AsrProvider, samples: Seq<i16>) -> Seq<u8> {
    if provider is OpenAiWhisper {
        wav_bytes(samples, TARGET_SAMPLE_RATE as nat, 1)
    } else {
        pcm_le(samples)
    }
}

/// What the streaming audio pump does on one tick.
#[derive(Debug)]
pub enum ForwardTick {
    /// The terminal-stop flag is up: the pump ends.
    Stop,
    /// Send this PCM chunk to the active session.
    Send(Vec<u8>),
    /// Nothing to send.
    Skip,
}

/// What the session manager does after forwarding a session event.
#[derive(Debug, Clone, Copy, PartialEq, Eq, Structural)]
pub enum SessionAction {
    /// Keep reading events from the same session.
    Continue,
    /// The provider ended the utterance mid-dictation: open a new session and
    /// read from that one.
    Reconnect,
    /// Streaming is over; the pipeline is idle.
    Finish,
}

/// What to send to the active session when the user ends the dictation.
#[derive(Debug)]
pub struct FinalFlush {
    /// The last buffered audio, if there was any.
    pub audio: Option<Vec<u8>>,
    /// Whether to send a commit after it.
    pub commit: bool,
}

/// A provider-ended utterance mid-dictation: the old session is no longer the
/// active one; everything else stands.
pub open spec fn utterance_boundary(v: PipelineView) -> PipelineView {
    PipelineView { session_active: false, ..v }
}

/// A reconnect that opened its new session.
pub open spec fn reconnected(v: PipelineView) -> PipelineView {
    PipelineView { session_active: true, ..v }
}

/// The dictation ended by the user: terminal-stop flag up, capture stopped,
/// processing until the final result.
pub open spec fn graceful_stop(v: PipelineView) -> PipelineView {
    PipelineView {
        should_stop: true,
        state: PipelineState::Processing,
        recorder: recorder_stopped(v.recorder),
        ..v
    }
}

/// Streaming over: at rest, out of streaming mode, no session active.
pub open spec fn streaming_ended(v: PipelineView) -> PipelineView {
    PipelineView {
        streaming_mode: false,
        session_active: false,
        streaming_provider: None,
        ..at_rest(v)
    }
}

impl VoicePipeline {
    /// The recorder is well formed, and it runs exactly while the pipeline
    /// records.
    pub closed spec fn wf(&self) -> bool {
        &&& self.recorder.wf()
        &&& (self.recorder@.state == RecordingState::Recording) == (self.state
            == PipelineState::Recording)
    }

    /// In a well-formed pipeline the capture engine runs exactly while the
    /// pipeline records.
    pub proof fn lemma_capture_runs_while_recording(&self)
        requires
            self.wf(),
        ensures
            (self@.recorder.state == RecordingState::Recording) == (self@.state
                == PipelineState::Recording),
    {
    }

    /// An idle pipeline bound to `config`, with the standard signal check.
    pub fn new(config: AppConfig) -> (r: Result<Self, PipelineError>)
        ensures
            r is Ok,
            r is Ok ==> r->Ok_0.wf() && r->Ok_0@.state == PipelineState::Idle
                && !r->Ok_0@.cancelled && !r->Ok_0@.streaming_mode && !r->Ok_0@.should_stop
                && !r->Ok_0@.session_active && r->Ok_0@.streaming_provider is None
                && r->Ok_0@.config == config && r->Ok_0@.gate == AmplitudeGate::standard_spec()
                && r->Ok_0@.recorder.state == RecordingState::Idle
                && r->Ok_0@.recorder.samples.len() == 0,
    {
        let recorder = match AudioRecorder::new() {
            Ok(rec) => rec,
            Err(e) => return Err(PipelineError::Audio(e)),
        };
        Ok(
            VoicePipeline {
                config,
                recorder,
                gate: AmplitudeGate::standard(),
                state: PipelineState::Idle,
                cancelled: false,
                streaming_mode: false,
                should_stop: false,
                session_active: false,
                streaming_provider: None,
            },
        )
    }

    pub fn get_state(&self) -> (r: PipelineState)
        ensures
            r == self@.state,
    {
        self.state
    }

    pub fn is_recording(&self) -> (r: bool)
        ensures
            r == (self@.state == PipelineState::Recording),
    {
        self.state == PipelineState::Recording
    }

    pub fn is_streaming(&self) -> (r: bool)
        ensures
            r == self@.streaming_mode,
    {
        self.streaming_mode
    }

    pub fn config(&self) -> (r: &AppConfig)
        ensures
            *r == self@.config,
    {
        &self.config
    }

    /// Replaces the configuration. Runs already under way keep the providers
    /// they selected: a batch run its step's provider, a streaming run the
    /// provider it began with.
    pub fn update_config(&mut self, config: AppConfig)
        ensures
            final(self)@ == (PipelineView { config: config, ..old(self)@ }),
    {
        self.config = config;
    }

    /// Replaces the calibration points of the signal check.
    pub fn set_amplitude_gate(&mut self, gate: AmplitudeGate)
        ensures
            final(self)@ == (PipelineView { gate: gate, ..old(self)@ }),
    {
        self.gate = gate;
    }

    /// Hands interleaved input from the device to the capture engine.
    pub fn push_audio(&mut self, data: &[i16])
        requires
            old(self).wf(),
        ensures
            final(self).wf(),
            old(self)@.recorder.state == RecordingState::Idle ==> final(self)@ == old(self)@,
            old(self)@.recorder.state == RecordingState::Recording ==> final(self)@ == (PipelineView {
                recorder: after_input(old(self)@.recorder, data@),
                ..old(self)@
            }),
    {
        self.recorder.push_input(data);
    }

    fn go_idle(&mut self)
        requires
            old(self).wf(),
        ensures
            final(self).wf(),
            final(self)@ == at_rest(old(self)@),
    {
        let _ = self.recorder.stop();
        self.state = PipelineState::Idle;
    }

    /// Cancels the current operation: see `cancel_effect`.
    pub fn cancel(&mut self) -> (r: Result<(), PipelineError>)
        requires
            old(self).wf(),
        ensures
            final(self).wf(),
            r is Ok,
            final(self)@ == cancel_effect(old(self)@),
    {
        match self.state {
            PipelineState::Idle => {},
            PipelineState::Recording => {
                self.cancelled = true;
                self.go_idle();
                self.cancelled = false;
            },
            PipelineState::Processing => {
                self.cancelled = true;
            },
        }
        Ok(())
    }

    /// Starts a batch recording from an input device that the caller opened
    /// (or failed to open). Rejected as busy unless the pipeline is idle; a
    /// device failure is reported and leaves the pipeline idle.
    pub fn start_recording(&mut self, device: Result<InputFormat, AudioError>) -> (r: Result<
        (),
        PipelineError,
    >)
        requires
            old(self).wf(),
        ensures
            final(self).wf(),
            old(self)@.state != PipelineState::Idle ==> (r matches Err(PipelineError::Busy))
                && final(self)@ == old(self)@,
            old(self)@.state == PipelineState::Idle ==> (r is Ok <==> (device matches Ok(f)
                && f.sample_rate > 0 && f.channels > 0)),
            old(self)@.state == PipelineState::Idle && r is Err ==> r->Err_0 is Audio
                && final(self)@ == (PipelineView { cancelled: false, ..old(self)@ }),
            old(self)@.state == PipelineState::Idle && r is Ok ==> final(self)@ == (PipelineView {
                state: PipelineState::Recording,
                cancelled: false,
                recorder: RecorderView {
                    state: RecordingState::Recording,
                    samples: Seq::empty(),
                    input_rate: device->Ok_0.sample_rate as nat,
                    input_channels: device->Ok_0.channels as nat,
                    phase: 0,
                },
                ..old(self)@
            }),
    {
        if self.state != PipelineState::Idle {
            return Err(PipelineError::Busy);
        }
        self.cancelled = false;
        let format = match device {
            Ok(f) => f,
            Err(e) => return Err(PipelineError::Audio(e)),
        };
        match self.recorder.start(format) {
            Ok(()) => {},
            Err(e) => return Err(PipelineError::Audio(e)),
        }
        self.state = PipelineState::Recording;
        Ok(())
    }

    /// The cancellation checkpoint: when the flag is up, unwind to idle, clear
    /// the flag and report the cancellation.
    fn checkpoint(&mut self) -> (hit: bool)
        requires
            old(self).wf(),
        ensures
            final(self).wf(),
            hit == old(self)@.cancelled,
            hit ==> final(self)@ == unwound(old(self)@),
            !hit ==> final(self)@ == old(self)@,
    {
        if self.cancelled {
            self.go_idle();
            self.cancelled = false;
            true
        } else {
            false
        }
    }

    /// First part of stop-and-process: stops the recording, checks its
    /// signal, selects the provider and encodes the audio for it.
    ///
    /// A pending cancellation unwinds with the cancellation error. Outside a
    /// recording this is a no-op that finishes with empty text. An empty
    /// recording finishes with empty text; a silent or too quiet one, or a
    /// provider that cannot be selected, finishes with that error. Every
    /// finish leaves the pipeline idle; otherwise it is processing and the
    /// step says what to recognize.
    pub fn begin_processing(&mut self) -> (r: BatchStep)
        requires
            old(self).wf(),
        ensures
            final(self).wf(),
            old(self)@.cancelled ==> is_cancelled_step(r) && final(self)@ == unwound(old(self)@),
            !old(self)@.cancelled && old(self)@.state != PipelineState::Recording ==> is_empty_finish(r)
                && final(self)@ == old(self)@,
            ({
                let v = old(self)@;
                let samples = v.recorder.samples;
                !v.cancelled && v.state == PipelineState::Recording && samples.len() == 0
                    ==> is_empty_finish(r) && final(self)@ == at_rest(v)
            }),
            ({
                let v = old(self)@;
                let samples = v.recorder.samples;
                !v.cancelled && v.state == PipelineState::Recording && samples.len() > 0
                    && recording_verdict(v, samples) is Some ==> r == BatchStep::Finished(
                    Err(recording_verdict(v, samples)->0),
                ) && final(self)@ == at_rest(v)
            }),
            ({
                let v = old(self)@;
                let samples = v.recorder.samples;
                !v.cancelled && v.state == PipelineState::Recording && samples.len() > 0
                    && recording_verdict(v, samples) is None && asr_selection(v.config.asr) is None
                    ==> (r matches BatchStep::Finished(Err(PipelineError::Asr(AsrError::Config(_)))))
                    && final(self)@ == at_rest(v)
            }),
            ({
                let v = old(self)@;
                let samples = v.recorder.samples;
                !v.cancelled && v.state == PipelineState::Recording && samples.len() > MAX_WAV_SAMPLES
                    && recording_verdict(v, samples) is None && asr_selection(v.config.asr) is Some
                    ==> (r matches BatchStep::Finished(Err(PipelineError::Audio(AudioError::Encoding(_)))))
                    && final(self)@ == at_rest(v)
            }),
            ({
                let v = old(self)@;
                let samples = v.recorder.samples;
                !v.cancelled && v.state == PipelineState::Recording && 0 < samples.len() <= MAX_WAV_SAMPLES
                    && recording_verdict(v, samples) is None && asr_selection(v.config.asr) is Some
                    ==> (r matches BatchStep::Recognize { provider, audio, sample_rate }
                    && provider == asr_selection(v.config.asr)->0 && audio@ == payload_for(
                    provider,
                    samples,
                ) && sample_rate == TARGET_SAMPLE_RATE) && final(self)@ == (PipelineView {
                    state: PipelineState::Processing,
                    recorder: recorder_stopped(v.recorder),
                    ..v
                })
            }),
    {
        if self.checkpoint() {
            return BatchStep::Finished(Err(PipelineError::Cancelled));
        }
        if self.state != PipelineState::Recording {
            return BatchStep::Finished(Ok(String::new()));
        }
        self.state = PipelineState::Processing;
        let samples = match self.recorder.stop() {
            Ok(v) => v,
            Err(e) => {
                self.go_idle();
                return BatchStep::Finished(Err(PipelineError::Audio(e)));
            },
        };
        if samples.len() == 0 {
            self.go_idle();
            return BatchStep::Finished(Ok(String::new()));
        }
        match check_signal(samples.as_slice(), self.gate) {
            SignalLevel::Silent => {
                self.go_idle();
                return BatchStep::Finished(Err(PipelineError::NoSignal));
            },
            SignalLevel::TooQuiet => {
                self.go_idle();
                return BatchStep::Finished(Err(PipelineError::TooQuiet));
            },
            SignalLevel::Speech => {},
        }
        let provider = match create_asr_service(&self.config.asr) {
            Ok(p) => p,
            Err(e) => {
                self.go_idle();
                return BatchStep::Finished(Err(PipelineError::Asr(e)));
            },
        };
        if samples.len() > MAX_WAV_SAMPLES {
            self.go_idle();
            return BatchStep::Finished(
                Err(PipelineError::Audio(AudioError::Encoding(owned("recording is too long to encode")))),
            );
        }
        let audio = if provider.requires_wav() {
            match encode_to_wav(samples.as_slice(), TARGET_SAMPLE_RATE, 1) {
                Ok(bytes) => bytes,
                Err(e) => {
                    self.go_idle();
                    return BatchStep::Finished(Err(PipelineError::Audio(e)));
                },
            }
        } else {
            encode_to_pcm(samples.as_slice())
        };
        BatchStep::Recognize { provider, audio, sample_rate: TARGET_SAMPLE_RATE }
    }

    /// Second part of stop-and-process, with the recognizer's outcome.
    ///
    /// A pending cancellation unwinds with the cancellation error; a failed
    /// recognition finishes with that error. With non-empty text and a
    /// refinement backend configured and selectable, the run stays processing
    /// and asks for refinement; otherwise it finishes with the text.
    pub fn after_recognition(&mut self, outcome: Result<AsrResult, AsrError>) -> (r: BatchStep)
        requires
            old(self).wf(),
        ensures
            final(self).wf(),
            old(self)@.cancelled ==> is_cancelled_step(r) && final(self)@ == unwound(old(self)@),
            !old(self)@.cancelled ==> ({
                let v = old(self)@;
                match outcome {
                    Err(e) => r == BatchStep::Finished(Err(PipelineError::Asr(e))) && final(self)@
                        == at_rest(v),
                    Ok(res) => if res.text@.len() > 0 && v.config.llm.enabled && llm_selection(
                        v.config.llm,
                    ) is Some {
                        (r matches BatchStep::Refine { provider, text } && provider
                            == llm_selection(v.config.llm)->0 && text == res.text) && final(self)@
                            == v
                    } else {
                        (r matches BatchStep::Finished(Ok(t)) && t == res.text) && final(self)@
                            == at_rest(v)
                    },
                }
            }),
    {
        if self.checkpoint() {
            return BatchStep::Finished(Err(PipelineError::Cancelled));
        }
        let result = match outcome {
            Ok(res) => res,
            Err(e) => {
                self.go_idle();
                return BatchStep::Finished(Err(PipelineError::Asr(e)));
            },
        };
        let text = result.text;
        if self.config.llm.enabled && text.as_str().unicode_len() > 0 {
            match create_llm_service(&self.config.llm) {
                Ok(Some(provider)) => {
                    return BatchStep::Refine { provider, text };
                },
                _ => {},
            }
        }
        self.go_idle();
        BatchStep::Finished(Ok(text))
    }

    /// Last part of stop-and-process, with the refinement outcome. A pending
    /// cancellation unwinds with the cancellation error; a failed refinement
    /// is not an error: the unrefined text stands.
    pub fn after_refinement(&mut self, text: String, outcome: Result<String, LlmError>) -> (r:
        Result<String, PipelineError>)
        requires
            old(self).wf(),
        ensures
            final(self).wf(),
            old(self)@.cancelled ==> (r matches Err(PipelineError::Cancelled)) && final(self)@
                == unwound(old(self)@),
            !old(self)@.cancelled ==> final(self)@ == at_rest(old(self)@) && r is Ok && match outcome {
                Ok(refined) => r->Ok_0 == refined,
                Err(_) => r->Ok_0 == text,
            },
    {
        if self.checkpoint() {
            return Err(PipelineError::Cancelled);
        }
        self.go_idle();
        match outcome {
            Ok(refined) => Ok(refined),
            Err(_) => Ok(text),
        }
    }

    /// Tears down any previous streaming run: raises the terminal-stop flag so
    /// its tasks end, and drops its session handle. The caller lets the
    /// teardown settle before `begin_streaming`.
    pub fn teardown_streaming(&mut self)
        requires
            old(self).wf(),
        ensures
            final(self).wf(),
            final(self)@ == (PipelineView { should_stop: true, session_active: false, ..old(self)@ }),
    {
        self.should_stop = true;
        self.session_active = false;
    }

    /// Starts a streaming run: rejected as busy unless idle; otherwise resets
    /// both flags, enters streaming mode and selects the streaming provider,
    /// whose first session the caller then opens. A provider that cannot be
    /// selected ends streaming mode with that error.
    pub fn begin_streaming(&mut self) -> (r: Result<QwenRealtimeAsr, PipelineError>)
        requires
            old(self).wf(),
        ensures
            final(self).wf(),
            old(self)@.state != PipelineState::Idle ==> (r matches Err(PipelineError::Busy))
                && final(self)@ == old(self)@,
            old(self)@.state == PipelineState::Idle ==> (r is Ok <==> (
                old(self)@.config.asr.provider@ == "Qwen"@ && old(self)@.config.asr.qwen is Some)),
            old(self)@.state == PipelineState::Idle && r is Ok ==> r->Ok_0.api_key()
                == old(self)@.config.asr.qwen->0.api_key && r->Ok_0.model()
                == old(self)@.config.asr.qwen->0.model,
            old(self)@.state == PipelineState::Idle && r is Ok ==> final(self)@ == (PipelineView {
                should_stop: false,
                cancelled: false,
                streaming_mode: true,
                streaming_provider: Some(r->Ok_0),
                ..old(self)@
            }),
            old(self)@.state == PipelineState::Idle && r is Err ==> (r matches Err(
                PipelineError::Asr(AsrError::Config(_)),
            )) && final(self)@ == (PipelineView {
                should_stop: false,
                cancelled: false,
                streaming_mode: false,
                streaming_provider: None,
                ..old(self)@
            }),
    {
        if self.state != PipelineState::Idle {
            return Err(PipelineError::Busy);
        }
        self.should_stop = false;
        self.cancelled = false;
        match create_streaming_asr_service(&self.config.asr) {
            Ok(provider) => {
                self.streaming_mode = true;
                self.streaming_provider = Some(provider.duplicate());
                Ok(provider)
            },
            Err(e) => {
                self.streaming_mode = false;
                self.streaming_provider = None;
                Err(PipelineError::Asr(e))
            },
        }
    }

    /// The first session of a streaming run has been opened (or not), and the
    /// input device opened (or not). On success the session becomes the
    /// active one and capture starts. A run that was stopped or cancelled in
    /// the meantime, a failed session and a failed device all end streaming
    /// mode; the caller then closes whatever it opened.
    pub fn streaming_opened(
        &mut self,
        session: Result<(), AsrError>,
        device: Result<InputFormat, AudioError>,
    ) -> (r: Result<(), PipelineError>)
        requires
            old(self).wf(),
        ensures
            final(self).wf(),
            (!old(self)@.streaming_mode || old(self)@.should_stop || old(self)@.state
                != PipelineState::Idle) ==> (r matches Err(PipelineError::Cancelled))
                && final(self)@ == (PipelineView { streaming_mode: false, ..old(self)@ }),
            (old(self)@.streaming_mode && !old(self)@.should_stop && old(self)@.state
                == PipelineState::Idle) ==> (r is Ok <==> (session is Ok && (device matches Ok(f)
                && f.sample_rate > 0 && f.channels > 0))),
            (old(self)@.streaming_mode && !old(self)@.should_stop && old(self)@.state
                == PipelineState::Idle && r is Err) ==> final(self)@ == (PipelineView {
                streaming_mode: false,
                ..old(self)@
            }),
            (old(self)@.streaming_mode && !old(self)@.should_stop && old(self)@.state
                == PipelineState::Idle && session is Err) ==> r == Err::<(), PipelineError>(
                PipelineError::Asr(session->Err_0),
            ),
            (old(self)@.streaming_mode && !old(self)@.should_stop && old(self)@.state
                == PipelineState::Idle && session is Ok && device is Err) ==> r == Err::<
                (),
                PipelineError,
            >(PipelineError::Audio(device->Err_0)),
            (old(self)@.streaming_mode && !old(self)@.should_stop && old(self)@.state
                == PipelineState::Idle && session is Ok && (device matches Ok(f)
                && (f.sample_rate == 0 || f.channels == 0))) ==> (r matches Err(
                PipelineError::Audio(AudioError::Device(_)),
            )),
            (old(self)@.streaming_mode && !old(self)@.should_stop && old(self)@.state
                == PipelineState::Idle && r is Ok) ==> final(self)@ == (PipelineView {
                state: PipelineState::Recording,
                session_active: true,
                recorder: RecorderView {
                    state: RecordingState::Recording,
                    samples: Seq::empty(),
                    input_rate: device->Ok_0.sample_rate as nat,
                    input_channels: device->Ok_0.channels as nat,
                    phase: 0,
                },
                ..old(self)@
            }),
    {
        if !self.streaming_mode || self.should_stop || self.state != PipelineState::Idle {
            self.streaming_mode = false;
            return Err(PipelineError::Cancelled);
        }
        match session {
            Ok(()) => {},
            Err(e) => {
                self.streaming_mode = false;
                return Err(PipelineError::Asr(e));
            },
        }
        let format = match device {
            Ok(f) => f,
            Err(e) => {
                self.streaming_mode = false;
                return Err(PipelineError::Audio(e));
            },
        };
        match self.recorder.start(format) {
            Ok(()) => {},
            Err(e) => {
                self.streaming_mode = false;
                return Err(PipelineError::Audio(e));
            },
        }
        self.session_active = true;
        self.state = PipelineState::Recording;
        Ok(())
    }

    /// One tick of the audio pump: ends when the terminal-stop flag is up;
    /// otherwise drains the capture buffer and, when it held audio and a
    /// session is active, sends it as PCM. Audio drained while no session is
    /// active (a reconnect in progress) is dropped.
    pub fn forward_tick(&mut self) -> (r: ForwardTick)
        requires
            old(self).wf(),
        ensures
            final(self).wf(),
            old(self)@.should_stop ==> r is Stop && final(self)@ == old(self)@,
            !old(self)@.should_stop ==> final(self)@ == (PipelineView {
                recorder: RecorderView { samples: Seq::empty(), ..old(self)@.recorder },
                ..old(self)@
            }),
            !old(self)@.should_stop && old(self)@.session_active
                && 0 < old(self)@.recorder.samples.len() <= MAX_PCM_SAMPLES
                ==> (r matches ForwardTick::Send(b) && b@
                == pcm_le(old(self)@.recorder.samples)),
            !old(self)@.should_stop && !(old(self)@.session_active
                && 0 < old(self)@.recorder.samples.len() <= MAX_PCM_SAMPLES) ==> r is Skip,
    {
        if self.should_stop {
            return ForwardTick::Stop;
        }
        let samples = self.recorder.drain_buffer();
        if self.session_active && samples.len() > 0 && samples.len() <= MAX_PCM_SAMPLES {
            ForwardTick::Send(encode_to_pcm(samples.as_slice()))
        } else {
            ForwardTick::Skip
        }
    }

    fn end_streaming(&mut self)
        requires
            old(self).wf(),
        ensures
            final(self).wf(),
            final(self)@ == streaming_ended(old(self)@),
    {
        self.go_idle();
        self.streaming_mode = false;
        self.session_active = false;
        self.streaming_provider = None;
    }

    /// Decides what follows an event that was just forwarded to the caller.
    ///
    /// A partial result changes nothing. A final result ends streaming when the
    /// terminal-stop flag is up, and otherwise marks an utterance boundary
    /// mid-dictation: reconnect, with no session active until the new one is
    /// open. An error always ends streaming; it is never retried.
    pub fn on_session_event(&mut self, event: &StreamingAsrEvent) -> (r: SessionAction)
        requires
            old(self).wf(),
        ensures
            final(self).wf(),
            event is Partial ==> r == SessionAction::Continue && final(self)@ == old(self)@,
            event is Final && old(self)@.should_stop ==> r == SessionAction::Finish
                && final(self)@ == streaming_ended(old(self)@),
            event is Final && !old(self)@.should_stop ==> r == SessionAction::Reconnect
                && final(self)@ == utterance_boundary(old(self)@),
            event is Error ==> r == SessionAction::Finish && final(self)@ == streaming_ended(
                old(self)@,
            ),
    {
        match event {
            StreamingAsrEvent::Partial { .. } => SessionAction::Continue,
            StreamingAsrEvent::Final { .. } => {
                if self.should_stop {
                    self.end_streaming();
                    SessionAction::Finish
                } else {
                    self.session_active = false;
                    SessionAction::Reconnect
                }
            },
            StreamingAsrEvent::Error(_) => {
                self.end_streaming();
                SessionAction::Finish
            },
        }
    }

    /// Decides what follows a session whose events ended without a final
    /// result or an error: the same as a final result.
    pub fn on_session_closed(&mut self) -> (r: SessionAction)
        requires
            old(self).wf(),
        ensures
            final(self).wf(),
            old(self)@.should_stop ==> r == SessionAction::Finish && final(self)@
                == streaming_ended(old(self)@),
            !old(self)@.should_stop ==> r == SessionAction::Reconnect && final(self)@
                == utterance_boundary(old(self)@),
    {
        if self.should_stop {
            self.end_streaming();
            SessionAction::Finish
        } else {
            self.session_active = false;
            SessionAction::Reconnect
        }
    }

    /// The provider for a reconnect: the one the streaming run began with.
    /// Outside a streaming run there is none, and streaming ends.
    pub fn reconnect_provider(&mut self) -> (r: Result<QwenRealtimeAsr, PipelineError>)
        requires
            old(self).wf(),
        ensures
            final(self).wf(),
            r is Ok <==> (old(self)@.streaming_mode && old(self)@.streaming_provider is Some),
            r is Ok ==> r->Ok_0 == old(self)@.streaming_provider->0 && final(self)@ == old(self)@,
            r is Err ==> (r matches Err(PipelineError::Other(_))) && final(self)@
                == streaming_ended(old(self)@),
    {
        if self.streaming_mode {
            if let Some(p) = &self.streaming_provider {
                return Ok(p.duplicate());
            }
        }
        self.end_streaming();
        Err(PipelineError::Other(owned("no streaming run is under way")))
    }

    /// A reconnect has opened its new session (or not). On success it becomes
    /// the active session and events are read from it; a failure ends
    /// streaming.
    pub fn on_reconnected(&mut self, session: Result<(), AsrError>) -> (r: SessionAction)
        requires
            old(self).wf(),
        ensures
            final(self).wf(),
            session is Ok ==> r == SessionAction::Continue && final(self)@ == reconnected(old(self)@),
            session is Err ==> r == SessionAction::Finish && final(self)@ == streaming_ended(
                old(self)@,
            ),
    {
        match session {
            Ok(()) => {
                self.session_active = true;
                SessionAction::Continue
            },
            Err(_) => {
                self.end_streaming();
                SessionAction::Finish
            },
        }
    }

    /// Ends the dictation gracefully: raises the terminal-stop flag, stops
    /// capture and moves to processing; the final result then carries the
    /// pipeline to idle. With a session active, the caller sends it the last
    /// buffered audio (if any) and a commit. Outside streaming mode this does
    /// nothing.
    pub fn stop_streaming(&mut self) -> (r: Option<FinalFlush>)
        requires
            old(self).wf(),
        ensures
            final(self).wf(),
            !old(self)@.streaming_mode ==> r is None && final(self)@ == old(self)@,
            old(self)@.streaming_mode ==> final(self)@ == graceful_stop(old(self)@),
            old(self)@.streaming_mode && !old(self)@.session_active ==> r is None,
            old(self)@.streaming_mode && old(self)@.session_active && old(self)@.state
                == PipelineState::Recording && 0 < old(self)@.recorder.samples.len()
                <= MAX_PCM_SAMPLES ==> (r matches Some(f) && f.commit && (f.audio matches Some(b)
                && b@ == pcm_le(old(self)@.recorder.samples))),
            old(self)@.streaming_mode && old(self)@.session_active ==> (r matches Some(f)
                && f.commit && (if old(self)@.recorder.state == RecordingState::Recording
                && 0 < old(self)@.recorder.samples.len() <= MAX_PCM_SAMPLES {
                f.audio matches Some(b) && b@ == pcm_le(old(self)@.recorder.samples)
            } else {
                f.audio is None
            })),
    {
        if !self.streaming_mode {
            return None;
        }
        self.should_stop = true;
        let samples = match self.recorder.stop() {
            Ok(v) => v,
            Err(_) => Vec::new(),
        };
        self.state = PipelineState::Processing;
        if !self.session_active {
            return None;
        }
        let audio = if samples.len() > 0 && samples.len() <= MAX_PCM_SAMPLES {
            Some(encode_to_pcm(samples.as_slice()))
        } else {
            None
        };
        Some(FinalFlush { audio, commit: true })
    }

    /// Ends the dictation at once: raises the terminal-stop flag, stops
    /// capture, drops the session and returns to idle marked as cancelled,
    /// whether or not the background work has wound down. Returns whether the
    /// caller must send a cancel to the session that was active. Outside
    /// streaming mode this does nothing.
    pub fn cancel_streaming(&mut self) -> (send_cancel: bool)
        requires
            old(self).wf(),
        ensures
            final(self).wf(),
            !old(self)@.streaming_mode ==> !send_cancel && final(self)@ == old(self)@,
            old(self)@.streaming_mode ==> send_cancel == old(self)@.session_active && final(self)@ == (PipelineView {
                should_stop: true,
                cancelled: true,
                ..streaming_ended(old(self)@)
            }),
    {
        if !self.streaming_mode {
            return false;
        }
        self.should_stop = true;
        let send_cancel = self.session_active;
        self.end_streaming();
        self.cancelled = true;
        send_cancel
    }
}

/// A cancel during a recording returns the pipeline to idle at once, with the
/// flag cleared and capture stopped, so no recording reaches a transcription
/// provider: a stop-and-process that follows finishes with empty text.
pub proof fn lemma_cancel_while_recording(v: PipelineView)
    requires
        v.state == PipelineState::Recording,
    ensures
        cancel_effect(v).state == PipelineState::Idle,
        !cancel_effect(v).cancelled,
        cancel_effect(v).recorder.state == RecordingState::Idle,
        v.recorder.state == RecordingState::Recording ==> cancel_effect(v).recorder.samples.len()
            == 0,
{
}

/// A cancel during processing leaves the state as it is and arms the
/// checkpoint: every later stage of the run then unwinds to idle with the
/// cancellation error instead of a result.
pub proof fn lemma_cancel_while_processing(v: PipelineView)
    requires
        v.state == PipelineState::Processing,
    ensures
        cancel_effect(v).state == PipelineState::Processing,
        cancel_effect(v).cancelled,
        unwound(cancel_effect(v)).state == PipelineState::Idle,
        !unwound(cancel_effect(v)).cancelled,
{
}


/// Continuous dictation across utterance boundaries: while the terminal-stop
/// flag is down, a final result keeps the pipeline recording and only swaps
/// the session; once the user stops, the pipeline processes, and the next
/// final result brings it to idle and out of streaming mode.
pub proof fn lemma_streaming_until_stop(v: PipelineView)
    requires
        v.state == PipelineState::Recording,
        v.streaming_mode,
        !v.should_stop,
        v.session_active,
        v.recorder.state == RecordingState::Recording,
    ensures
        utterance_boundary(v).state == PipelineState::Recording,
        !utterance_boundary(v).should_stop,
        reconnected(utterance_boundary(v)) == v,
        graceful_stop(v).state == PipelineState::Processing,
        graceful_stop(v).should_stop,
        graceful_stop(v).streaming_mode,
        streaming_ended(graceful_stop(v)).state == PipelineState::Idle,
        !streaming_ended(graceful_stop(v)).streaming_mode,
        streaming_ended(graceful_stop(v)).recorder.state == RecordingState::Idle,
{
}

/// Signal levels at three calibration points of the standard check: a
/// recording of nothing but zeros is silent; a peak of 0.02 of full scale
/// (655 once quantized) is too quiet; a peak of 0.3 (9830) is speech.
pub proof fn lemma_standard_signal_levels(s: Seq<i16>)
    ensures
        (forall|i: int| 0 <= i < s.len() ==> s[i] == 0) ==> signal_level(
            s,
            AmplitudeGate::standard_spec(),
        ) == SignalLevel::Silent,
        peak(s) == 655 ==> signal_level(s, AmplitudeGate::standard_spec()) == SignalLevel::TooQuiet,
        peak(s) == 9830 ==> signal_level(s, AmplitudeGate::standard_spec()) == SignalLevel::Speech,
{
    if forall|i: int| 0 <= i < s.len() ==> s[i] == 0 {
        lemma_peak_of_zeros(s);
    }
}

proof fn lemma_peak_of_zeros(s: Seq<i16>)
    requires
        forall|i: int| 0 <= i < s.len() ==> s[i] == 0,
    ensures
        peak(s) == 0,
    decreases s.len(),
{
    if s.len() > 0 {
        let init = s.drop_last();
        assert forall|i: int| 0 <= i < init.len() implies init[i] == 0 by {
            assert(init[i] == s[i]);
        }
        lemma_peak_of_zeros(init);
    }
}

} // verus!
