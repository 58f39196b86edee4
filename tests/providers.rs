use vhisper_core::asr::{
    create_asr_service, create_streaming_asr_service, transcription_outcome, AsrError,
    AsrProvider, QwenRealtimeAsr, StreamingAsrEvent, StreamingControl, TranscriptionReply,
};
use vhisper_core::config::{
    default_asr_provider, default_dashscope_model, default_funasr_endpoint, default_gpt_model,
    default_language, default_llm_provider, default_max_tokens, default_ollama_endpoint,
    default_ollama_model, default_paste_delay, default_qwen_asr_model, default_qwen_model,
    default_temperature_milli, default_trigger_key, default_true, default_whisper_model,
    AppConfig, AsrConfig, FunAsrConfig, LlmConfig, OllamaConfig, OpenAiAsrConfig,
    OpenAiLlmConfig, QwenAsrConfig,
};
use vhisper_core::hotkey::{HotkeyAction, HotkeyTracker};
use vhisper_core::llm::{
    create_llm_service, dashscope_refined_text, openai_refined_text, refine_messages,
    DashScopeOutput, DashScopeReply, LlmError, LlmProvider, OpenAiReply, REFINE_PROMPT,
};
use vhisper_core::output::output_plan;
use vhisper_core::permissions::{
    check_permissions, microphone_request_granted, open_accessibility_settings,
    open_microphone_settings, PermissionProbe, PermissionState, PermissionStatus, Platform,
};
use vhisper_core::realtime::{
    control_event, event_id_from_uuid, generate_event_id, handshake_step, session_update,
    HandshakeStep, OutboundEvent, ResponseEvent, SessionDecoder, COMPLETED_EVENT, PARTIAL_EVENT,
};

fn asr_config(provider: &str) -> AsrConfig {
    let mut c = AsrConfig::default();
    c.provider = provider.to_string();
    c
}

#[test]
fn defaults() {
    let c = AppConfig::default();
    assert_eq!(c.hotkey.trigger_key, "Alt");
    assert!(c.hotkey.enabled);
    assert_eq!(c.asr.provider, "Qwen");
    assert!(c.llm.enabled);
    assert_eq!(c.llm.provider, "DashScope");
    assert!(c.output.restore_clipboard);
    assert_eq!(c.output.paste_delay_ms, 50);
    assert_eq!(default_trigger_key(), "Alt");
    assert!(default_true());
    assert_eq!(default_asr_provider(), "Qwen");
    assert_eq!(default_dashscope_model(), "paraformer-realtime-v2");
    assert_eq!(default_qwen_asr_model(), "qwen3-asr-flash-realtime");
    assert_eq!(default_whisper_model(), "whisper-1");
    assert_eq!(default_language(), "zh");
    assert_eq!(default_funasr_endpoint(), "http://localhost:10096");
    assert_eq!(default_llm_provider(), "DashScope");
    assert_eq!(default_qwen_model(), "qwen-plus");
    assert_eq!(default_gpt_model(), "gpt-4o-mini");
    assert_eq!(default_temperature_milli(), 300);
    assert_eq!(default_max_tokens(), 2000);
    assert_eq!(default_ollama_endpoint(), "http://localhost:11434");
    assert_eq!(default_ollama_model(), "qwen3:8b");
    assert_eq!(default_paste_delay(), 50);
}

#[test]
fn asr_selection_by_name() {
    let mut c = asr_config("FunAsr");
    c.funasr = Some(FunAsrConfig { endpoint: "http://e".to_string() });
    match create_asr_service(&c).unwrap() {
        AsrProvider::FunAsr { endpoint } => assert_eq!(endpoint, "http://e"),
        other => panic!("unexpected provider {:?}", other),
    }
    let mut c = asr_config("OpenAIWhisper");
    c.openai = Some(OpenAiAsrConfig {
        api_key: "k".to_string(),
        model: "whisper-1".to_string(),
        language: "en".to_string(),
    });
    let p = create_asr_service(&c).unwrap();
    assert!(p.requires_wav());
    let mut c = asr_config("Qwen");
    c.qwen = Some(QwenAsrConfig { api_key: "k".to_string(), model: "m".to_string() });
    assert!(!create_asr_service(&c).unwrap().requires_wav());
}

#[test]
fn asr_selection_errors() {
    match create_asr_service(&asr_config("Whatever")) {
        Err(AsrError::Config(m)) => assert_eq!(m, "unknown ASR provider: Whatever"),
        other => panic!("unexpected {:?}", other),
    }
    assert!(matches!(create_asr_service(&asr_config("DashScope")), Err(AsrError::Config(_))));
    assert!(matches!(create_asr_service(&asr_config("Qwen")), Err(AsrError::Config(_))));
}

#[test]
fn streaming_selection() {
    let mut c = asr_config("Qwen");
    assert!(matches!(create_streaming_asr_service(&c), Err(AsrError::Config(_))));
    c.qwen = Some(QwenAsrConfig { api_key: "key".to_string(), model: "qm".to_string() });
    let p = create_streaming_asr_service(&c).unwrap();
    assert_eq!(
        p.session_url(),
        "wss://dashscope.aliyuncs.com/api-ws/v1/realtime?model=qm"
    );
    assert_eq!(p.authorization(), "Bearer key");
    assert!(matches!(
        create_streaming_asr_service(&asr_config("DashScope")),
        Err(AsrError::Config(_))
    ));
}

#[test]
fn realtime_provider_new() {
    let p = QwenRealtimeAsr::new("a".to_string(), "b".to_string());
    assert_eq!(p.api_key_str(), "a");
    assert_eq!(p.model_str(), "b");
}

#[test]
fn transcription_outcomes() {
    let ok = transcription_outcome(
        true,
        TranscriptionReply { text: Some("hi".to_string()), error: None },
        String::new(),
    )
    .unwrap();
    assert_eq!(ok.text, "hi");
    assert!(ok.is_final);
    match transcription_outcome(
        false,
        TranscriptionReply { text: None, error: Some("bad key".to_string()) },
        "HTTP 401".to_string(),
    ) {
        Err(AsrError::Api(m)) => assert_eq!(m, "bad key"),
        other => panic!("unexpected {:?}", other),
    }
    match transcription_outcome(
        false,
        TranscriptionReply { text: None, error: None },
        "HTTP 500: oops".to_string(),
    ) {
        Err(AsrError::Api(m)) => assert_eq!(m, "HTTP 500: oops"),
        other => panic!("unexpected {:?}", other),
    }
}

#[test]
fn session_update_carries_detection_settings() {
    let e = session_update("event_x".to_string(), 16000);
    assert_eq!(e.event_type(), "session.update");
    match e {
        OutboundEvent::SessionUpdate {
            event_id,
            sample_rate,
            language,
            vad_threshold_milli,
            silence_duration_ms,
        } => {
            assert_eq!(event_id, "event_x");
            assert_eq!(sample_rate, 16000);
            assert_eq!(language, "zh");
            assert_eq!(vad_threshold_milli, 500);
            assert_eq!(silence_duration_ms, 500);
        }
        other => panic!("unexpected {:?}", other),
    }
}

#[test]
fn control_commands_become_messages() {
    match control_event(StreamingControl::Audio(vec![1, 2, 3, 4]), "e1".to_string()) {
        Some(OutboundEvent::AudioAppend { event_id, audio }) => {
            assert_eq!(event_id, "e1");
            assert_eq!(audio, "AQIDBA==");
        }
        other => panic!("unexpected {:?}", other),
    }
    let commit = control_event(StreamingControl::Commit, "e2".to_string()).unwrap();
    assert_eq!(commit.event_type(), "input_audio_buffer.commit");
    assert!(control_event(StreamingControl::Cancel, "e3".to_string()).is_none());
}

#[test]
fn event_ids() {
    assert_eq!(
        event_id_from_uuid("67e55044-10b1-426f-9247-bb680e5fe0c8"),
        "event_67e5504410b1426f9247"
    );
    assert_eq!(event_id_from_uuid("ab-c"), "event_abc");
    let id = generate_event_id();
    assert_eq!(id.len(), 26);
    assert!(id.starts_with("event_"));
    assert!(id[6..].chars().all(|c| c.is_ascii_hexdigit() && !c.is_ascii_uppercase()));
    assert_ne!(generate_event_id(), id);
}

fn response(kind: &str) -> ResponseEvent {
    ResponseEvent {
        event_type: kind.to_string(),
        transcript: None,
        text: None,
        stash: None,
        error: None,
    }
}

#[test]
fn handshake() {
    assert!(matches!(handshake_step(&response("session.created")), HandshakeStep::Confirmed));
    assert!(matches!(handshake_step(&response("session.updated")), HandshakeStep::Confirmed));
    assert!(matches!(handshake_step(&response("other")), HandshakeStep::Waiting));
    let mut bad = response("session.created");
    bad.error = Some("denied".to_string());
    match handshake_step(&bad) {
        HandshakeStep::Failed(AsrError::Api(m)) => assert_eq!(m, "denied"),
        other => panic!("unexpected {:?}", other),
    }
}

#[test]
fn decoder_backfills_final_from_partials() {
    let mut d = SessionDecoder::new();
    let mut p = response(PARTIAL_EVENT);
    p.text = Some("hello".to_string());
    p.stash = Some(" wor".to_string());
    let out = d.on_response(p);
    assert!(!out.end);
    match out.event {
        Some(StreamingAsrEvent::Partial { text, stash }) => {
            assert_eq!(text, "hello");
            assert_eq!(stash, " wor");
        }
        other => panic!("unexpected {:?}", other),
    }
    let mut empty = response(PARTIAL_EVENT);
    empty.stash = Some("x".to_string());
    d.on_response(empty);
    let out = d.on_response(response(COMPLETED_EVENT));
    assert!(out.end);
    match out.event {
        Some(StreamingAsrEvent::Final { text }) => assert_eq!(text, "hello"),
        other => panic!("unexpected {:?}", other),
    }
    let out = d.on_response(response(COMPLETED_EVENT));
    match out.event {
        Some(StreamingAsrEvent::Final { text }) => assert!(text.is_empty()),
        other => panic!("unexpected {:?}", other),
    }
}

#[test]
fn decoder_prefers_transcript() {
    let mut d = SessionDecoder::new();
    let mut c = response(COMPLETED_EVENT);
    c.transcript = Some("T".to_string());
    c.text = Some("X".to_string());
    match d.on_response(c).event {
        Some(StreamingAsrEvent::Final { text }) => assert_eq!(text, "T"),
        other => panic!("unexpected {:?}", other),
    }
}

#[test]
fn decoder_errors_and_ignores() {
    let mut d = SessionDecoder::new();
    let out = d.on_response(response("input_audio_buffer.speech_started"));
    assert!(out.event.is_none() && !out.end);
    let mut e = response("error");
    e.error = Some("quota".to_string());
    let out = d.on_response(e);
    assert!(out.end);
    match out.event {
        Some(StreamingAsrEvent::Error(m)) => assert_eq!(m, "quota"),
        other => panic!("unexpected {:?}", other),
    }
}

#[test]
fn llm_selection() {
    let mut c = LlmConfig::default();
    c.enabled = false;
    assert!(create_llm_service(&c).unwrap().is_none());
    c.enabled = true;
    assert!(matches!(create_llm_service(&c), Err(LlmError::Config(_))));
    c.provider = "OpenAI".to_string();
    c.openai = Some(OpenAiLlmConfig {
        api_key: "k".to_string(),
        model: "gpt-4o-mini".to_string(),
        temperature_milli: 300,
        max_tokens: 2000,
    });
    match create_llm_service(&c).unwrap() {
        Some(LlmProvider::OpenAi { temperature_milli, max_tokens, .. }) => {
            assert_eq!(temperature_milli, 300);
            assert_eq!(max_tokens, 2000);
        }
        other => panic!("unexpected {:?}", other),
    }
    c.provider = "Ollama".to_string();
    c.ollama = Some(OllamaConfig { endpoint: "e".to_string(), model: "m".to_string() });
    assert!(matches!(create_llm_service(&c), Ok(Some(LlmProvider::Ollama { .. }))));
    c.provider = "Else".to_string();
    match create_llm_service(&c) {
        Err(LlmError::Config(m)) => assert_eq!(m, "unknown LLM provider: Else"),
        other => panic!("unexpected {:?}", other),
    }
}

#[test]
fn refine_request_messages() {
    let m = refine_messages("abc");
    assert_eq!(m.len(), 2);
    assert_eq!(m[0].role, "system");
    assert_eq!(m[0].content, REFINE_PROMPT);
    assert_eq!(m[1].role, "user");
    assert_eq!(m[1].content, "abc");
}

#[test]
fn dashscope_reply_interpretation() {
    let r = dashscope_refined_text(
        "in",
        DashScopeReply {
            message: None,
            output: Some(DashScopeOutput { text: Some("  fixed.\n".to_string()), first_choice: None }),
        },
    );
    assert_eq!(r.unwrap(), "fixed.");
    let r = dashscope_refined_text(
        "in",
        DashScopeReply {
            message: None,
            output: Some(DashScopeOutput { text: None, first_choice: Some(" c ".to_string()) }),
        },
    );
    assert_eq!(r.unwrap(), "c");
    let r = dashscope_refined_text(" keep ", DashScopeReply { message: None, output: None });
    assert_eq!(r.unwrap(), "keep");
    match dashscope_refined_text(
        "in",
        DashScopeReply { message: Some("Invalid key".to_string()), output: None },
    ) {
        Err(LlmError::Api(m)) => assert_eq!(m, "Invalid key"),
        other => panic!("unexpected {:?}", other),
    }
    let r = dashscope_refined_text("x", DashScopeReply { message: Some(String::new()), output: None });
    assert_eq!(r.unwrap(), "x");
}

#[test]
fn openai_reply_interpretation() {
    let r = openai_refined_text("in", OpenAiReply { error: None, first_choice: Some(" ok ".to_string()) });
    assert_eq!(r.unwrap(), "ok");
    let r = openai_refined_text(" in ", OpenAiReply { error: None, first_choice: None });
    assert_eq!(r.unwrap(), "in");
    match openai_refined_text("in", OpenAiReply { error: Some("rate".to_string()), first_choice: None }) {
        Err(LlmError::Api(m)) => assert_eq!(m, "rate"),
        other => panic!("unexpected {:?}", other),
    }
}

#[test]
fn permissions_by_platform() {
    let mac = check_permissions(PermissionProbe {
        platform: Platform::MacOs,
        accessibility_trusted: false,
        input_device_found: true,
    });
    assert_eq!(mac, PermissionStatus { accessibility: false, microphone: PermissionState::Granted });
    let mac = check_permissions(PermissionProbe {
        platform: Platform::MacOs,
        accessibility_trusted: true,
        input_device_found: false,
    });
    assert_eq!(mac.microphone, PermissionState::Denied);
    assert!(!microphone_request_granted(mac));
    let win = check_permissions(PermissionProbe {
        platform: Platform::Windows,
        accessibility_trusted: false,
        input_device_found: false,
    });
    assert_eq!(
        win,
        PermissionStatus { accessibility: true, microphone: PermissionState::NotApplicable }
    );
    assert!(microphone_request_granted(win));
    assert!(open_accessibility_settings(Platform::Other).is_none());
    assert!(open_microphone_settings(Platform::Windows).is_none());
    assert!(open_microphone_settings(Platform::MacOs).unwrap().ends_with("Privacy_Microphone"));
    assert!(open_accessibility_settings(Platform::MacOs)
        .unwrap()
        .ends_with("Privacy_Accessibility"));
}

#[test]
fn output_plans() {
    let p = output_plan(Some(42), Some(42), true);
    assert!(p.paste && p.restore_clipboard);
    let p = output_plan(Some(42), Some(7), true);
    assert!(!p.paste && !p.restore_clipboard);
    let p = output_plan(Some(42), None, true);
    assert!(!p.paste);
    let p = output_plan(None, Some(7), false);
    assert!(p.paste && !p.restore_clipboard);
}

#[test]
fn hotkey_edges() {
    let mut t = HotkeyTracker::new();
    assert_eq!(t.on_key(true), HotkeyAction::StartRecording);
    assert_eq!(t.on_key(true), HotkeyAction::Nothing);
    assert_eq!(t.on_key(false), HotkeyAction::StopRecording);
    assert_eq!(t.on_key(false), HotkeyAction::Nothing);
    assert_eq!(t.on_key(true), HotkeyAction::StartRecording);
}
