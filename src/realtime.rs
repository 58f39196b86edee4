use crate::asr::{AsrError, QwenRealtimeAsr, StreamingAsrEvent, StreamingControl};
use crate::text::{joined, owned, text_is};
use vstd::prelude::*;
use vstd::string::{StrSliceExecFns, StringExecFns};

verus! {

/// Where realtime sessions connect; the model goes in the query.
pub const REALTIME_ENDPOINT: &'static str = "wss://dashscope.aliyuncs.com/api-ws/v1/realtime?model=";

impl QwenRealtimeAsr {
    /// The session URL for this provider's model.
    pub fn session_url(&self) -> (r: String)
        ensures
            r@ == REALTIME_ENDPOINT@ + self.model()@,
    {
        joined(REALTIME_ENDPOINT, self.model_str())
    }

    /// The value of the Authorization header.
    pub fn authorization(&self) -> (r: String)
        ensures
            r@ == "Bearer "@ + self.api_key()@,
    {
        joined("Bearer ", self.api_key_str())
    }
}

/// What `base64::engine::general_purpose::STANDARD` encodes a byte string to.
pub uninterp spec fn base64_of(b: Seq<u8>) -> Seq<char>;

/// Relies on base64's `Engine::encode` with the standard, padded alphabet.
/// The output has four characters for every started group of three bytes.
/// The bound keeps its length computation from overflowing, where it panics.
#[verifier::external_body]
fn base64_encode(data: &[u8]) -> (r: String)
    requires
        data@.len() < usize::MAX / 2,
    ensures
        r@ == base64_of(data@),
        r@.len() == 4 * ((data@.len() + 2) / 3),
{
    base64::Engine::encode(&base64::engine::general_purpose::STANDARD, data)
}

/// Whether a character is a lower-case hexadecimal digit.
pub open spec fn is_lower_hex(c: char) -> bool {
    ('0' <= c <= '9') || ('a' <= c <= 'f')
}

/// The layout of a hyphenated UUID: 36 characters, hyphens at 8, 13, 18 and
/// 23, lower-case hex digits elsewhere.
pub open spec fn is_hyphenated_uuid(s: Seq<char>) -> bool {
    &&& s.len() == 36
    &&& forall|i: int|
        0 <= i < 36 ==> if i == 8 || i == 13 || i == 18 || i == 23 {
            #[trigger] s[i] == '-'
        } else {
            is_lower_hex(s[i])
        }
}

/// Relies on uuid's `Uuid::new_v4` and its `Display`, which writes the
/// hyphenated lower-case form. The value is random: only its layout is known.
#[verifier::external_body]
fn random_uuid() -> (r: String)
    ensures
        is_hyphenated_uuid(r@),
{
    uuid::Uuid::new_v4().to_string()
}

/// The characters of `s` other than hyphens, in order.
pub open spec fn without_hyphens(s: Seq<char>) -> Seq<char>
    decreases s.len(),
{
    if s.len() == 0 {
        s
    } else if s.last() == '-' {
        without_hyphens(s.drop_last())
    } else {
        without_hyphens(s.drop_last()).push(s.last())
    }
}

/// At most the first `n` characters of `s`.
pub open spec fn prefix_upto(s: Seq<char>, n: nat) -> Seq<char> {
    if s.len() <= n {
        s
    } else {
        s.take(n as int)
    }
}

/// An event id built from a UUID: `event_` and the first 20 characters of the
/// UUID once its hyphens are taken out.
pub fn event_id_from_uuid(uuid: &str) -> (r: String)
    ensures
        r@ == "event_"@ + prefix_upto(without_hyphens(uuid@), 20),
{
    let mut kept = String::new();
    let mut count: usize = 0;
    let n = uuid.unicode_len();
    let mut i: usize = 0;
    while i < n
        invariant
            n == uuid@.len(),
            i <= n,
            kept@ == prefix_upto(without_hyphens(uuid@.take(i as int)), 20),
            count == kept@.len(),
        decreases n - i,
    {
        let c = uuid.get_char(i);
        let ghost w = without_hyphens(uuid@.take(i as int));
        proof {
            assert(uuid@.take(i + 1).drop_last() =~= uuid@.take(i as int));
            assert(uuid@.take(i + 1).last() == c);
        }
        if c != '-' && count < 20 {
            let one = uuid.substring_char(i, i + 1);
            proof {
                assert(one@ =~= seq![c]);
            }
            kept.append(one);
            count = count + 1;
            proof {
                assert(w.len() < 20);
                assert(prefix_upto(w.push(c), 20) =~= w.push(c));
            }
        } else if c != '-' {
            proof {
                assert(w.push(c).take(20) =~= w.take(20));
            }
        }
        i = i + 1;
    }
    proof {
        assert(uuid@.take(n as int) =~= uuid@);
    }
    joined("event_", kept.as_str())
}

proof fn lemma_without_hyphens_run(s: Seq<char>, k: int, n: int)
    requires
        0 <= k <= n <= s.len(),
        forall|i: int| k <= i < n ==> #[trigger] s[i] != '-',
    ensures
        without_hyphens(s.take(n)).len() == without_hyphens(s.take(k)).len() + (n - k),
    decreases n - k,
{
    if n > k {
        lemma_without_hyphens_run(s, k, n - 1);
        assert(s.take(n).drop_last() =~= s.take(n - 1));
    }
}

proof fn lemma_without_hyphens_grows(s: Seq<char>, k: int, n: int)
    requires
        0 <= k <= n <= s.len(),
    ensures
        without_hyphens(s.take(n)).len() >= without_hyphens(s.take(k)).len(),
    decreases n - k,
{
    if n > k {
        lemma_without_hyphens_grows(s, k, n - 1);
        assert(s.take(n).drop_last() =~= s.take(n - 1));
    }
}

proof fn lemma_without_hyphens_hex(s: Seq<char>)
    requires
        forall|i: int| 0 <= i < s.len() ==> s[i] == '-' || is_lower_hex(#[trigger] s[i]),
    ensures
        forall|j: int| 0 <= j < without_hyphens(s).len() ==> is_lower_hex(
            #[trigger] without_hyphens(s)[j],
        ),
    decreases s.len(),
{
    if s.len() > 0 {
        let init = s.drop_last();
        assert forall|i: int| 0 <= i < init.len() implies init[i] == '-' || is_lower_hex(
            #[trigger] init[i],
        ) by {
            assert(init[i] == s[i]);
        }
        lemma_without_hyphens_hex(init);
        let w = without_hyphens(init);
        let c = s.last();
        assert(is_lower_hex(c) || c == '-');
        if c != '-' {
            assert forall|j: int| 0 <= j < w.push(c).len() implies is_lower_hex(
                #[trigger] w.push(c)[j],
            ) by {
                if j < w.len() {
                    assert(w.push(c)[j] == w[j]);
                }
            }
        }
    }
}

/// A hyphenated UUID has at least 20 characters besides its hyphens.
proof fn lemma_uuid_digits(s: Seq<char>)
    requires
        is_hyphenated_uuid(s),
    ensures
        without_hyphens(s).len() >= 20,
{
    assert forall|i: int| 0 <= i < 36 && i != 8 && i != 13 && i != 18 && i != 23 implies #[trigger] s[i] != '-' by {
        assert(is_lower_hex(s[i]));
    }
    assert(s.take(0) =~= Seq::<char>::empty());
    lemma_without_hyphens_run(s, 0, 8);
    lemma_without_hyphens_grows(s, 8, 9);
    lemma_without_hyphens_run(s, 9, 13);
    lemma_without_hyphens_grows(s, 13, 14);
    lemma_without_hyphens_run(s, 14, 18);
    lemma_without_hyphens_grows(s, 18, 19);
    lemma_without_hyphens_run(s, 19, 23);
    lemma_without_hyphens_grows(s, 23, 36);
    assert(s.take(36) =~= s);
}

/// A fresh event id for an outbound message: `event_` and 20 hex digits of a
/// random UUID.
pub fn generate_event_id() -> (r: String)
    ensures
        r@.len() == 26,
        r@.take(6) == "event_"@,
        forall|i: int| 6 <= i < 26 ==> is_lower_hex(#[trigger] r@[i]),
{
    let u = random_uuid();
    proof {
        reveal_strlit("event_");
        lemma_uuid_digits(u@);
        assert forall|i: int| 0 <= i < u@.len() implies u@[i] == '-' || is_lower_hex(
            #[trigger] u@[i],
        ) by {}
        lemma_without_hyphens_hex(u@);
    }
    let r = event_id_from_uuid(u.as_str());
    proof {
        assert(r@.take(6) =~= "event_"@);
        let w = without_hyphens(u@);
        assert forall|i: int| 6 <= i < 26 implies is_lower_hex(#[trigger] r@[i]) by {
            assert(r@[i] == w.take(20)[i - 6]);
        }
    }
    r
}


/// A message sent to the realtime provider.
#[derive(Debug, Clone)]
pub enum OutboundEvent {
    /// Configures the session: PCM at `sample_rate`, transcription in
    /// `language`, and server-side end-of-utterance detection with a voice
    /// threshold (in thousandths) and a silence cutoff.
    SessionUpdate {
        event_id: String,
        sample_rate: u32,
        language: String,
        vad_threshold_milli: u32,
        silence_duration_ms: u32,
    },
    /// Appends base64-encoded PCM to the provider's input buffer.
    AudioAppend { event_id: String, audio: String },
    /// Commits the input buffer, asking for a final result.
    AudioCommit { event_id: String },
}

/// Voice-activity threshold of the provider's utterance detection, in thousandths.
pub const VAD_THRESHOLD_MILLI: u32 = 500;

/// Silence that ends an utterance, in milliseconds.
pub const SILENCE_DURATION_MS: u32 = 500;

/// The language sessions transcribe.
pub const SESSION_LANGUAGE: &'static str = "zh";

impl OutboundEvent {
    /// The message's `type` field.
    pub fn event_type(&self) -> (r: &'static str)
        ensures
            self is SessionUpdate ==> r@ == "session.update"@,
            self is AudioAppend ==> r@ == "input_audio_buffer.append"@,
            self is AudioCommit ==> r@ == "input_audio_buffer.commit"@,
    {
        match self {
            OutboundEvent::SessionUpdate { .. } => "session.update",
            OutboundEvent::AudioAppend { .. } => "input_audio_buffer.append",
            OutboundEvent::AudioCommit { .. } => "input_audio_buffer.commit",
        }
    }
}

/// The session configuration sent right after connecting.
pub fn session_update(event_id: String, sample_rate: u32) -> (r: OutboundEvent)
    ensures
        r matches OutboundEvent::SessionUpdate {
            event_id: id,
            sample_rate: rate,
            language,
            vad_threshold_milli,
            silence_duration_ms,
        } && id == event_id && rate == sample_rate && language@ == SESSION_LANGUAGE@
            && vad_threshold_milli == VAD_THRESHOLD_MILLI && silence_duration_ms
            == SILENCE_DURATION_MS,
{
    OutboundEvent::SessionUpdate {
        event_id,
        sample_rate,
        language: owned(SESSION_LANGUAGE),
        vad_threshold_milli: VAD_THRESHOLD_MILLI,
        silence_duration_ms: SILENCE_DURATION_MS,
    }
}

/// The message a control command becomes: audio is appended as base64, a
/// commit commits, and a cancel sends nothing but closes the connection
/// (`None`).
pub fn control_event(control: StreamingControl, event_id: String) -> (r: Option<OutboundEvent>)
    requires
        control is Audio ==> control->Audio_0@.len() < usize::MAX / 2,
    ensures
        control is Audio ==> (r matches Some(OutboundEvent::AudioAppend { event_id: id, audio })
            && id == event_id && audio@ == base64_of(control->Audio_0@) && audio@.len() == 4 * ((
            control->Audio_0@.len() + 2) / 3)),
        control is Commit ==> (r matches Some(OutboundEvent::AudioCommit { event_id: id })
            && id == event_id),
        control is Cancel ==> r is None,
{
    match control {
        StreamingControl::Audio(data) => Some(
            OutboundEvent::AudioAppend { event_id, audio: base64_encode(data.as_slice()) },
        ),
        StreamingControl::Commit => Some(OutboundEvent::AudioCommit { event_id }),
        StreamingControl::Cancel => None,
    }
}

/// A message received from the realtime provider, with the fields that the
/// session reads.
#[derive(Debug, Clone)]
pub struct ResponseEvent {
    pub event_type: String,
    pub transcript: Option<String>,
    pub text: Option<String>,
    pub stash: Option<String>,
    /// The message of the `error` object, when there is one.
    pub error: Option<String>,
}

pub const PARTIAL_EVENT: &'static str = "conversation.item.input_audio_transcription.text";

pub const COMPLETED_EVENT: &'static str = "conversation.item.input_audio_transcription.completed";

/// Where the handshake stands after a message.
#[derive(Debug, Clone)]
pub enum HandshakeStep {
    /// The provider confirmed the session.
    Confirmed,
    /// The provider refused the session.
    Failed(AsrError),
    /// Keep waiting for the confirmation.
    Waiting,
}

/// Reads one message during the handshake: an error object fails it, a
/// session created or updated event confirms it, anything else is ignored.
pub fn handshake_step(resp: &ResponseEvent) -> (r: HandshakeStep)
    ensures
        resp.error is Some ==> (r matches HandshakeStep::Failed(AsrError::Api(m)) && m
            == resp.error->0),
        resp.error is None && (resp.event_type@ == "session.created"@ || resp.event_type@
            == "session.updated"@) ==> r is Confirmed,
        resp.error is None && !(resp.event_type@ == "session.created"@ || resp.event_type@
            == "session.updated"@) ==> r is Waiting,
{
    match &resp.error {
        Some(m) => HandshakeStep::Failed(AsrError::Api(m.clone())),
        None => {
            if text_is(&resp.event_type, "session.created") || text_is(
                &resp.event_type,
                "session.updated",
            ) {
                HandshakeStep::Confirmed
            } else {
                HandshakeStep::Waiting
            }
        },
    }
}

/// The text of an optional field, empty when absent.
pub open spec fn or_empty(s: Option<String>) -> Seq<char> {
    match s {
        Some(t) => t@,
        None => Seq::empty(),
    }
}

/// The text of a completed transcription: its transcript, else its text,
/// else what the session's partial results confirmed.
pub open spec fn final_text(resp: ResponseEvent, accumulated: Seq<char>) -> Seq<char> {
    match resp.transcript {
        Some(t) => t@,
        None => match resp.text {
            Some(t) => t@,
            None => accumulated,
        },
    }
}

/// What one provider message means for the caller.
#[derive(Debug, Clone)]
pub struct Decoded {
    /// The event to forward, if any.
    pub event: Option<StreamingAsrEvent>,
    /// Whether the session ends here.
    pub end: bool,
}

/// Decodes one session's provider messages into events, keeping the latest
/// confirmed text to stand in for a final result that carries none.
pub struct SessionDecoder {
    accumulated: String,
}

impl SessionDecoder {
    /// The latest confirmed text of this session.
    pub closed spec fn accumulated(&self) -> Seq<char> {
        self.accumulated@
    }

    pub fn new() -> (r: Self)
        ensures
            r.accumulated().len() == 0,
    {
        SessionDecoder { accumulated: String::new() }
    }

    /// Decodes one message. An error object becomes an error event and ends
    /// the session. A partial transcription becomes a partial event (absent
    /// fields read as empty), and non-empty confirmed text is remembered. A
    /// completed transcription becomes the final event and ends the session.
    /// Anything else is ignored.
    pub fn on_response(&mut self, resp: ResponseEvent) -> (r: Decoded)
        ensures
            resp.error is Some ==> (r.event matches Some(StreamingAsrEvent::Error(m)) && m
                == resp.error->0) && r.end && final(self).accumulated() == old(self).accumulated(),
            resp.error is None && resp.event_type@ == PARTIAL_EVENT@ ==> (r.event matches Some(
                StreamingAsrEvent::Partial { text, stash },
            ) && text@ == or_empty(resp.text) && stash@ == or_empty(resp.stash)) && !r.end
                && final(self).accumulated() == (if or_empty(resp.text).len() > 0 {
                or_empty(resp.text)
            } else {
                old(self).accumulated()
            }),
            resp.error is None && resp.event_type@ != PARTIAL_EVENT@ && resp.event_type@
                == COMPLETED_EVENT@ ==> (r.event matches Some(StreamingAsrEvent::Final { text })
                && text@ == final_text(resp, old(self).accumulated())) && r.end && final(self).accumulated().len() == 0,
            resp.error is None && resp.event_type@ != PARTIAL_EVENT@ && resp.event_type@
                != COMPLETED_EVENT@ ==> r.event is None && !r.end && final(self).accumulated()
                == old(self).accumulated(),
    {
        if let Some(m) = resp.error {
            return Decoded { event: Some(StreamingAsrEvent::Error(m)), end: true };
        }
        if text_is(&resp.event_type, PARTIAL_EVENT) {
            let text = match resp.text {
                Some(t) => t,
                None => String::new(),
            };
            let stash = match resp.stash {
                Some(t) => t,
                None => String::new(),
            };
            if text.as_str().unicode_len() > 0 {
                self.accumulated = text.clone();
            }
            return Decoded { event: Some(StreamingAsrEvent::Partial { text, stash }), end: false };
        }
        if text_is(&resp.event_type, COMPLETED_EVENT) {
            let text = match resp.transcript {
                Some(t) => t,
                None => match resp.text {
                    Some(t) => t,
                    None => self.accumulated.clone(),
                },
            };
            self.accumulated = String::new();
            return Decoded { event: Some(StreamingAsrEvent::Final { text }), end: true };
        }
        Decoded { event: None, end: false }
    }
}

} // verus!
