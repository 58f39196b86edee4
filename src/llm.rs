use crate::config::LlmConfig;
use crate::text::{joined, owned, text_is};
use vstd::prelude::*;

verus! {

/// Failures of a refinement backend.
#[derive(Debug, Clone)]
pub enum LlmError {
    Api(String),
    Network(String),
    Config(String),
}

impl LlmError {
    pub open spec fn message_spec(&self) -> Seq<char> {
        match self {
            LlmError::Api(m) => "API error: "@ + m@,
            LlmError::Network(m) => "Network error: "@ + m@,
            LlmError::Config(m) => "Configuration error: "@ + m@,
        }
    }

    /// A readable description of the error.
    pub fn message(&self) -> (r: String)
        ensures
            r@ == self.message_spec(),
    {
        match self {
            LlmError::Api(m) => joined("API error: ", m.as_str()),
            LlmError::Network(m) => joined("Network error: ", m.as_str()),
            LlmError::Config(m) => joined("Configuration error: ", m.as_str()),
        }
    }
}

/// The fixed instruction sent with every refinement request: correct
/// homophones, typos and mixed-language misrecognitions, add punctuation, and
/// never paraphrase, add or remove content.
pub const REFINE_PROMPT: &'static str = "你是一个语音识别文本校对助手。请修正以下语音识别文本中的错误：\n\n规则：\n1. 修正错别字和同音字错误（如\"在\"/\"再\"、\"的\"/\"地\"/\"得\"、\"他\"/\"她\"等）\n2. 修正中英混合识别错误：\n   - 将被误识别为中文的英文单词还原（如\"艾皮艾\"→\"API\"、\"杰森\"→\"JSON\"）\n   - 将被误识别为英文的中文还原\n   - 保持专业术语的正确拼写（如 API、JSON、HTTP、React、Vue 等）\n3. 添加必要的标点符号\n4. 不要改变原文的意思、语气和表达方式\n5. 不要添加、删除或重组内容\n6. 不要进行润色或优化\n\n只输出修正后的文本，不要添加任何解释。如果输入文本没有错误，原样输出。\n\n输入文本：";

/// A refinement backend, with the settings it was selected with.
#[derive(Debug, Clone)]
pub enum LlmProvider {
    DashScope { api_key: String, model: String },
    /// The sampling temperature is in thousandths.
    OpenAi { api_key: String, model: String, temperature_milli: u32, max_tokens: u32 },
    Ollama { endpoint: String, model: String },
}

/// The backend that an enabled configuration selects, if its name is known
/// and its settings are present.
pub open spec fn llm_selection(c: LlmConfig) -> Option<LlmProvider> {
    if c.provider@ == "DashScope"@ {
        match c.dashscope {
            Some(d) => Some(LlmProvider::DashScope { api_key: d.api_key, model: d.model }),
            None => None,
        }
    } else if c.provider@ == "OpenAI"@ {
        match c.openai {
            Some(o) => Some(
                LlmProvider::OpenAi {
                    api_key: o.api_key,
                    model: o.model,
                    temperature_milli: o.temperature_milli,
                    max_tokens: o.max_tokens,
                },
            ),
            None => None,
        }
    } else if c.provider@ == "Ollama"@ {
        match c.ollama {
            Some(o) => Some(LlmProvider::Ollama { endpoint: o.endpoint, model: o.model }),
            None => None,
        }
    } else {
        None
    }
}

/// Selects the refinement backend. A disabled configuration selects none;
/// an enabled one with an unknown name or missing settings is a
/// configuration error.
pub fn create_llm_service(config: &LlmConfig) -> (r: Result<Option<LlmProvider>, LlmError>)
    ensures
        !config.enabled ==> r == Ok::<Option<LlmProvider>, LlmError>(None),
        config.enabled && llm_selection(*config) is Some ==> r == Ok::<
            Option<LlmProvider>,
            LlmError,
        >(llm_selection(*config)),
        config.enabled && llm_selection(*config) is None ==> r is Err && r->Err_0 is Config,
{
    if !config.enabled {
        return Ok(None);
    }
    if text_is(&config.provider, "DashScope") {
        match &config.dashscope {
            Some(d) => Ok(
                Some(LlmProvider::DashScope { api_key: d.api_key.clone(), model: d.model.clone() }),
            ),
            None => Err(LlmError::Config(owned("DashScope LLM configuration is missing"))),
        }
    } else if text_is(&config.provider, "OpenAI") {
        match &config.openai {
            Some(o) => Ok(
                Some(
                    LlmProvider::OpenAi {
                        api_key: o.api_key.clone(),
                        model: o.model.clone(),
                        temperature_milli: o.temperature_milli,
                        max_tokens: o.max_tokens,
                    },
                ),
            ),
            None => Err(LlmError::Config(owned("OpenAI LLM configuration is missing"))),
        }
    } else if text_is(&config.provider, "Ollama") {
        match &config.ollama {
            Some(o) => Ok(
                Some(LlmProvider::Ollama { endpoint: o.endpoint.clone(), model: o.model.clone() }),
            ),
            None => Err(LlmError::Config(owned("Ollama configuration is missing"))),
        }
    } else {
        Err(LlmError::Config(joined("unknown LLM provider: ", config.provider.as_str())))
    }
}

/// One message of a chat request.
#[derive(Debug, Clone)]
pub struct ChatMessage {
    pub role: String,
    pub content: String,
}

/// The two messages of a refinement request: the fixed instruction, then the
/// text to refine.
pub fn refine_messages(text: &str) -> (r: Vec<ChatMessage>)
    ensures
        r@.len() == 2,
        r@[0].role@ == "system"@,
        r@[0].content@ == REFINE_PROMPT@,
        r@[1].role@ == "user"@,
        r@[1].content@ == text@,
{
    let mut r: Vec<ChatMessage> = Vec::new();
    r.push(ChatMessage { role: owned("system"), content: owned(REFINE_PROMPT) });
    r.push(ChatMessage { role: owned("user"), content: owned(text) });
    r
}

/// Unicode's White_Space property, which `char::is_whitespace` tests: the 25
/// code points U+0009..U+000D, U+0020, U+0085, U+00A0, U+1680,
/// U+2000..U+200A, U+2028, U+2029, U+202F, U+205F and U+3000.
pub open spec fn is_white_space(c: char) -> bool {
    ||| '\u{9}' <= c <= '\u{d}'
    ||| c == ' '
    ||| c == '\u{85}'
    ||| c == '\u{a0}'
    ||| c == '\u{1680}'
    ||| '\u{2000}' <= c <= '\u{200a}'
    ||| c == '\u{2028}'
    ||| c == '\u{2029}'
    ||| c == '\u{202f}'
    ||| c == '\u{205f}'
    ||| c == '\u{3000}'
}

/// `s` without its leading white space.
pub open spec fn trim_start(s: Seq<char>) -> Seq<char>
    decreases s.len(),
{
    if s.len() > 0 && is_white_space(s[0]) {
        trim_start(s.drop_first())
    } else {
        s
    }
}

/// `s` without its trailing white space.
pub open spec fn trim_end(s: Seq<char>) -> Seq<char>
    decreases s.len(),
{
    if s.len() > 0 && is_white_space(s.last()) {
        trim_end(s.drop_last())
    } else {
        s
    }
}

/// `s` without leading and trailing white space.
pub open spec fn trimmed(s: Seq<char>) -> Seq<char> {
    trim_end(trim_start(s))
}

/// Relies on str::trim, which removes leading and trailing White_Space.
#[verifier::external_body]
fn trim_text(s: &str) -> (r: String)
    ensures
        r@ == trimmed(s@),
{
    s.trim().to_string()
}

/// The parsed answer of the DashScope generation endpoint: the top-level
/// message, and the output's text or its first choice's content.
#[derive(Debug, Clone)]
pub struct DashScopeReply {
    pub message: Option<String>,
    pub output: Option<DashScopeOutput>,
}

#[derive(Debug, Clone)]
pub struct DashScopeOutput {
    pub text: Option<String>,
    pub first_choice: Option<String>,
}

/// The text a DashScope reply carries, or the input when it carries none.
pub open spec fn dashscope_candidate(input: Seq<char>, reply: DashScopeReply) -> Seq<char> {
    match reply.output {
        Some(o) => match o.text {
            Some(t) => t@,
            None => match o.first_choice {
                Some(c) => c@,
                None => input,
            },
        },
        None => input,
    }
}

/// Interprets a successful DashScope reply: a non-empty message without an
/// output is an API error; otherwise the carried text, trimmed, falling back
/// to the input text.
pub fn dashscope_refined_text(input: &str, reply: DashScopeReply) -> (r: Result<String, LlmError>)
    ensures
        (reply.message matches Some(m) && m@.len() > 0 && reply.output is None) ==> r is Err
            && r->Err_0 is Api && r->Err_0->Api_0@ == reply.message->0@,
        !(reply.message matches Some(m) && m@.len() > 0 && reply.output is None) ==> r is Ok
            && r->Ok_0@ == trimmed(dashscope_candidate(input@, reply)),
{
    if reply.output.is_none() {
        if let Some(m) = &reply.message {
            if m.as_str().unicode_len() > 0 {
                return Err(LlmError::Api(m.clone()));
            }
        }
    }
    let candidate = match &reply.output {
        Some(o) => match &o.text {
            Some(t) => t.clone(),
            None => match &o.first_choice {
                Some(c) => c.clone(),
                None => owned(input),
            },
        },
        None => owned(input),
    };
    Ok(trim_text(candidate.as_str()))
}

/// The parsed answer of an OpenAI-style chat endpoint: its error message, and
/// the content of its first choice.
#[derive(Debug, Clone)]
pub struct OpenAiReply {
    pub error: Option<String>,
    pub first_choice: Option<String>,
}

/// Interprets a successful chat reply: an error object is an API error;
/// otherwise the first choice, trimmed, falling back to the input text.
pub fn openai_refined_text(input: &str, reply: OpenAiReply) -> (r: Result<String, LlmError>)
    ensures
        reply.error is Some ==> r is Err && r->Err_0 is Api && r->Err_0->Api_0@
            == reply.error->0@,
        reply.error is None && reply.first_choice is Some ==> r is Ok && r->Ok_0@ == trimmed(
            reply.first_choice->0@,
        ),
        reply.error is None && reply.first_choice is None ==> r is Ok && r->Ok_0@ == trimmed(
            input@,
        ),
{
    match reply.error {
        Some(e) => Err(LlmError::Api(e)),
        None => match &reply.first_choice {
            Some(c) => Ok(trim_text(c.as_str())),
            None => Ok(trim_text(input)),
        },
    }
}

} // verus!
