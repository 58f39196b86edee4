use crate::text::owned;
use vstd::prelude::*;

verus! {

/// Whole application configuration: hotkey, transcription, refinement, output.
#[derive(Debug, Clone)]
pub struct AppConfig {
    pub hotkey: HotkeyConfig,
    pub asr: AsrConfig,
    pub llm: LlmConfig,
    pub output: OutputConfig,
}

/// The key that triggers dictation.
#[derive(Debug, Clone)]
pub struct HotkeyConfig {
    pub trigger_key: String,
    pub enabled: bool,
}

/// Which transcription provider to use, and the settings of each.
#[derive(Debug, Clone)]
pub struct AsrConfig {
    pub provider: String,
    pub dashscope: Option<DashScopeAsrConfig>,
    pub qwen: Option<QwenAsrConfig>,
    pub openai: Option<OpenAiAsrConfig>,
    pub funasr: Option<FunAsrConfig>,
}

#[derive(Debug, Clone)]
pub struct DashScopeAsrConfig {
    pub api_key: String,
    pub model: String,
}

#[derive(Debug, Clone)]
pub struct QwenAsrConfig {
    pub api_key: String,
    pub model: String,
}

#[derive(Debug, Clone)]
pub struct OpenAiAsrConfig {
    pub api_key: String,
    pub model: String,
    pub language: String,
}

#[derive(Debug, Clone)]
pub struct FunAsrConfig {
    pub endpoint: String,
}

/// Whether refinement is on, which provider does it, and the settings of each.
#[derive(Debug, Clone)]
pub struct LlmConfig {
    pub enabled: bool,
    pub provider: String,
    pub dashscope: Option<DashScopeLlmConfig>,
    pub openai: Option<OpenAiLlmConfig>,
    pub ollama: Option<OllamaConfig>,
}

#[derive(Debug, Clone)]
pub struct DashScopeLlmConfig {
    pub api_key: String,
    pub model: String,
}

/// Settings of the OpenAI chat backend. The sampling temperature is held in
/// thousandths (300 stands for 0.3).
#[derive(Debug, Clone)]
pub struct OpenAiLlmConfig {
    pub api_key: String,
    pub model: String,
    pub temperature_milli: u32,
    pub max_tokens: u32,
}

#[derive(Debug, Clone)]
pub struct OllamaConfig {
    pub endpoint: String,
    pub model: String,
}

/// How the final text is delivered.
#[derive(Debug, Clone)]
pub struct OutputConfig {
    pub restore_clipboard: bool,
    pub paste_delay_ms: u64,
}

pub fn default_trigger_key() -> (r: String)
    ensures
        r@ == "Alt"@,
{
    owned("Alt")
}

pub fn default_true() -> (r: bool)
    ensures
        r,
{
    true
}

pub fn default_asr_provider() -> (r: String)
    ensures
        r@ == "Qwen"@,
{
    owned("Qwen")
}

pub fn default_dashscope_model() -> (r: String)
    ensures
        r@ == "paraformer-realtime-v2"@,
{
    owned("paraformer-realtime-v2")
}

pub fn default_qwen_asr_model() -> (r: String)
    ensures
        r@ == "qwen3-asr-flash-realtime"@,
{
    owned("qwen3-asr-flash-realtime")
}

pub fn default_whisper_model() -> (r: String)
    ensures
        r@ == "whisper-1"@,
{
    owned("whisper-1")
}

pub fn default_language() -> (r: String)
    ensures
        r@ == "zh"@,
{
    owned("zh")
}

pub fn default_funasr_endpoint() -> (r: String)
    ensures
        r@ == "http://localhost:10096"@,
{
    owned("http://localhost:10096")
}

pub fn default_llm_provider() -> (r: String)
    ensures
        r@ == "DashScope"@,
{
    owned("DashScope")
}

pub fn default_qwen_model() -> (r: String)
    ensures
        r@ == "qwen-plus"@,
{
    owned("qwen-plus")
}

pub fn default_gpt_model() -> (r: String)
    ensures
        r@ == "gpt-4o-mini"@,
{
    owned("gpt-4o-mini")
}

/// 0.3, in thousandths.
pub fn default_temperature_milli() -> (r: u32)
    ensures
        r == 300,
{
    300
}

pub fn default_max_tokens() -> (r: u32)
    ensures
        r == 2000,
{
    2000
}

pub fn default_ollama_endpoint() -> (r: String)
    ensures
        r@ == "http://localhost:11434"@,
{
    owned("http://localhost:11434")
}

pub fn default_ollama_model() -> (r: String)
    ensures
        r@ == "qwen3:8b"@,
{
    owned("qwen3:8b")
}

pub fn default_paste_delay() -> (r: u64)
    ensures
        r == 50,
{
    50
}

impl Default for HotkeyConfig {
    fn default() -> (r: Self)
        ensures
            r.trigger_key@ == "Alt"@,
            r.enabled,
    {
        HotkeyConfig { trigger_key: default_trigger_key(), enabled: true }
    }
}

impl Default for AsrConfig {
    fn default() -> (r: Self)
        ensures
            r.provider@ == "Qwen"@,
            r.dashscope is None,
            r.qwen is None,
            r.openai is None,
            r.funasr is None,
    {
        AsrConfig {
            provider: default_asr_provider(),
            dashscope: None,
            qwen: None,
            openai: None,
            funasr: None,
        }
    }
}

impl Default for LlmConfig {
    fn default() -> (r: Self)
        ensures
            r.enabled,
            r.provider@ == "DashScope"@,
            r.dashscope is None,
            r.openai is None,
            r.ollama is None,
    {
        LlmConfig {
            enabled: true,
            provider: default_llm_provider(),
            dashscope: None,
            openai: None,
            ollama: None,
        }
    }
}

impl Default for OutputConfig {
    fn default() -> (r: Self)
        ensures
            r.restore_clipboard,
            r.paste_delay_ms == 50,
    {
        OutputConfig { restore_clipboard: true, paste_delay_ms: default_paste_delay() }
    }
}

impl Default for AppConfig {
    fn default() -> (r: Self)
        ensures
            r.hotkey.trigger_key@ == "Alt"@,
            r.hotkey.enabled,
            r.asr.provider@ == "Qwen"@,
            r.asr.dashscope is None && r.asr.qwen is None && r.asr.openai is None
                && r.asr.funasr is None,
            r.llm.enabled,
            r.llm.provider@ == "DashScope"@,
            r.llm.dashscope is None && r.llm.openai is None && r.llm.ollama is None,
            r.output.restore_clipboard,
            r.output.paste_delay_ms == 50,
    {
        AppConfig {
            hotkey: HotkeyConfig::default(),
            asr: AsrConfig::default(),
            llm: LlmConfig::default(),
            output: OutputConfig::default(),
        }
    }
}

} // verus!
