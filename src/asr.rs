use crate::config::AsrConfig;
use crate::text::{joined, owned, text_is};
use vstd::prelude::*;

verus! {

/// Failures of a transcription provider.
#[derive(Debug, Clone)]
pub enum AsrError {
    /// The provider answered with an error or a non-success status.
    Api(String),
    /// The connection or the transport failed.
    Network(String),
    /// The request payload could not be encoded.
    Encoding(String),
    /// Provider settings are missing or invalid; raised before any network call.
    Config(String),
    /// The streaming handshake or protocol was violated.
    Session(String),
    /// The operation was cancelled.
    Cancelled,
}

impl AsrError {
    pub open spec fn message_spec(&self) -> Seq<char> {
        match self {
            AsrError::Api(m) => "API error: "@ + m@,
            AsrError::Network(m) => "Network error: "@ + m@,
            AsrError::Encoding(m) => "Audio encoding error: "@ + m@,
            AsrError::Config(m) => "Configuration error: "@ + m@,
            AsrError::Session(m) => "Session error: "@ + m@,
            AsrError::Cancelled => "Cancelled"@,
        }
    }

    /// A readable description of the error.
    pub fn message(&self) -> (r: String)
        ensures
            r@ == self.message_spec(),
    {
        match self {
            AsrError::Api(m) => joined("API error: ", m.as_str()),
            AsrError::Network(m) => joined("Network error: ", m.as_str()),
            AsrError::Encoding(m) => joined("Audio encoding error: ", m.as_str()),
            AsrError::Config(m) => joined("Configuration error: ", m.as_str()),
            AsrError::Session(m) => joined("Session error: ", m.as_str()),
            AsrError::Cancelled => owned("Cancelled"),
        }
    }
}

/// A recognition result. Batch results are always final.
#[derive(Debug, Clone)]
pub struct AsrResult {
    pub text: String,
    pub is_final: bool,
}

/// What a streaming session reports.
#[derive(Debug, Clone)]
pub enum StreamingAsrEvent {
    /// An intermediate result: `text` is confirmed and will not change,
    /// `stash` is tentative.
    Partial { text: String, stash: String },
    /// The final result of an utterance; the session ends with it.
    Final { text: String },
    /// A provider or transport error; the session ends with it.
    Error(String),
}

/// What a caller sends into a streaming session.
#[derive(Debug, Clone)]
pub enum StreamingControl {
    /// A chunk of 16-bit little-endian PCM.
    Audio(Vec<u8>),
    /// Flush the provider's buffer and ask for a final result.
    Commit,
    /// Close the session.
    Cancel,
}

/// A batch transcription provider, with the settings it was selected with.
#[derive(Debug, Clone)]
pub enum AsrProvider {
    Qwen { api_key: String, model: String },
    DashScope { api_key: String, model: String },
    OpenAiWhisper { api_key: String, model: String, language: String },
    FunAsr { endpoint: String },
}

impl AsrProvider {
    /// Whether the provider takes a WAV file rather than headerless PCM.
    pub fn requires_wav(&self) -> (r: bool)
        ensures
            r == (self is OpenAiWhisper),
    {
        match self {
            AsrProvider::OpenAiWhisper { .. } => true,
            _ => false,
        }
    }
}

/// The provider that a configuration selects, if its name is known and its
/// settings are present.
pub open spec fn asr_selection(c: AsrConfig) -> Option<AsrProvider> {
    if c.provider@ == "Qwen"@ {
        match c.qwen {
            Some(q) => Some(AsrProvider::Qwen { api_key: q.api_key, model: q.model }),
            None => None,
        }
    } else if c.provider@ == "DashScope"@ {
        match c.dashscope {
            Some(d) => Some(AsrProvider::DashScope { api_key: d.api_key, model: d.model }),
            None => None,
        }
    } else if c.provider@ == "OpenAIWhisper"@ {
        match c.openai {
            Some(o) => Some(
                AsrProvider::OpenAiWhisper { api_key: o.api_key, model: o.model, language: o.language },
            ),
            None => None,
        }
    } else if c.provider@ == "FunAsr"@ {
        match c.funasr {
            Some(f) => Some(AsrProvider::FunAsr { endpoint: f.endpoint }),
            None => None,
        }
    } else {
        None
    }
}

/// Whether a provider name is one of the batch providers.
pub open spec fn known_asr_provider(name: Seq<char>) -> bool {
    name == "Qwen"@ || name == "DashScope"@ || name == "OpenAIWhisper"@ || name == "FunAsr"@
}

/// Selects the batch provider that the configuration names. An unknown name,
/// or a known one whose settings are missing, is a configuration error.
pub fn create_asr_service(config: &AsrConfig) -> (r: Result<AsrProvider, AsrError>)
    ensures
        asr_selection(*config) is Some ==> r == Ok::<AsrProvider, AsrError>(
            asr_selection(*config)->0,
        ),
        asr_selection(*config) is None ==> r is Err && r->Err_0 is Config,
        !known_asr_provider(config.provider@) ==> r is Err && r->Err_0->Config_0@
            == "unknown ASR provider: "@ + config.provider@,
{
    if text_is(&config.provider, "Qwen") {
        match &config.qwen {
            Some(q) => Ok(AsrProvider::Qwen { api_key: q.api_key.clone(), model: q.model.clone() }),
            None => Err(AsrError::Config(owned("Qwen ASR configuration is missing"))),
        }
    } else if text_is(&config.provider, "DashScope") {
        match &config.dashscope {
            Some(d) => Ok(
                AsrProvider::DashScope { api_key: d.api_key.clone(), model: d.model.clone() },
            ),
            None => Err(AsrError::Config(owned("DashScope ASR configuration is missing"))),
        }
    } else if text_is(&config.provider, "OpenAIWhisper") {
        match &config.openai {
            Some(o) => Ok(
                AsrProvider::OpenAiWhisper {
                    api_key: o.api_key.clone(),
                    model: o.model.clone(),
                    language: o.language.clone(),
                },
            ),
            None => Err(AsrError::Config(owned("OpenAI ASR configuration is missing"))),
        }
    } else if text_is(&config.provider, "FunAsr") {
        match &config.funasr {
            Some(f) => Ok(AsrProvider::FunAsr { endpoint: f.endpoint.clone() }),
            None => Err(AsrError::Config(owned("FunASR configuration is missing"))),
        }
    } else {
        Err(AsrError::Config(joined("unknown ASR provider: ", config.provider.as_str())))
    }
}

/// The realtime (streaming) transcription provider.
#[derive(Debug, Clone)]
pub struct QwenRealtimeAsr {
    api_key: String,
    model: String,
}

impl QwenRealtimeAsr {
    pub fn new(api_key: String, model: String) -> (r: Self)
        ensures
            r.api_key() == api_key,
            r.model() == model,
    {
        QwenRealtimeAsr { api_key, model }
    }

    pub closed spec fn api_key(&self) -> String {
        self.api_key
    }

    pub closed spec fn model(&self) -> String {
        self.model
    }

    /// A copy with the same key and model.
    pub fn duplicate(&self) -> (r: Self)
        ensures
            r == *self,
    {
        QwenRealtimeAsr { api_key: self.api_key.clone(), model: self.model.clone() }
    }

    pub fn api_key_str(&self) -> (r: &str)
        ensures
            r@ == self.api_key()@,
    {
        self.api_key.as_str()
    }

    pub fn model_str(&self) -> (r: &str)
        ensures
            r@ == self.model()@,
    {
        self.model.as_str()
    }
}

/// Selects the streaming provider that the configuration names. Only the
/// realtime Qwen provider streams; any other name, or missing Qwen settings,
/// is a configuration error.
pub fn create_streaming_asr_service(config: &AsrConfig) -> (r: Result<QwenRealtimeAsr, AsrError>)
    ensures
        r is Ok <==> config.provider@ == "Qwen"@ && config.qwen is Some,
        r is Ok ==> r->Ok_0.api_key() == config.qwen->0.api_key && r->Ok_0.model()
            == config.qwen->0.model,
        r is Err ==> r->Err_0 is Config,
{
    if text_is(&config.provider, "Qwen") {
        match &config.qwen {
            Some(q) => Ok(QwenRealtimeAsr::new(q.api_key.clone(), q.model.clone())),
            None => Err(AsrError::Config(owned("Qwen ASR configuration is missing"))),
        }
    } else {
        Err(AsrError::Config(joined("streaming is not supported by ASR provider ", config.provider.as_str())))
    }
}


/// The parsed answer of a batch transcription endpoint: its transcript, and
/// the message of its error object.
#[derive(Debug, Clone)]
pub struct TranscriptionReply {
    pub text: Option<String>,
    pub error: Option<String>,
}

/// Interprets a batch transcription answer. A success status with a
/// transcript is a final result. A failure status is an API error with the
/// provider's own message, or `detail` when it gave none; a success status
/// without a transcript is an API error with `detail`.
pub fn transcription_outcome(success: bool, reply: TranscriptionReply, detail: String) -> (r: Result<
    AsrResult,
    AsrError,
>)
    ensures
        success && reply.text is Some ==> r is Ok && r->Ok_0.text == reply.text->0
            && r->Ok_0.is_final,
        success && reply.text is None ==> (r matches Err(AsrError::Api(m)) && m == detail),
        !success && reply.error is Some ==> (r matches Err(AsrError::Api(m)) && m
            == reply.error->0),
        !success && reply.error is None ==> (r matches Err(AsrError::Api(m)) && m == detail),
{
    if success {
        match reply.text {
            Some(t) => Ok(AsrResult { text: t, is_final: true }),
            None => Err(AsrError::Api(detail)),
        }
    } else {
        match reply.error {
            Some(m) => Err(AsrError::Api(m)),
            None => Err(AsrError::Api(detail)),
        }
    }
}

} // verus!
