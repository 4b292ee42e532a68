use speech_translator::asr::accept_hosted_response;
use speech_translator::asr::finish_transcription;
use speech_translator::asr::hosted_endpoint;
use speech_translator::asr::hosted_model;
use speech_translator::asr::hosted_response_format;
use speech_translator::asr::local_endpoints;
use speech_translator::asr::local_probe_start;
use speech_translator::asr::local_probe_step;
use speech_translator::asr::require_api_key;
use speech_translator::asr::upload_file_name;
use speech_translator::asr::upload_mime_type;
use speech_translator::asr::AsrConfig;
use speech_translator::asr::LocalProbe;
use speech_translator::errors::PipelineError;

/// What the surrounding program does with a response body: parse it as
/// `{"text": ...}` and take the string field, or nothing.
fn parse_text_field(body: &str) -> Option<String> {
    let v: serde_json::Value = serde_json::from_str(body).ok()?;
    Some(v.get("text")?.as_str()?.to_string())
}

#[test]
fn hosted_needs_an_api_key() {
    let cfg = AsrConfig { api_key: None, use_local: false };
    let r = require_api_key(&cfg);
    assert!(matches!(r, Err(PipelineError::MissingApiKey)));
    let cfg2 = AsrConfig { api_key: Some(String::from("sk-test")), use_local: false };
    assert_eq!(require_api_key(&cfg2).unwrap(), "sk-test");
}

#[test]
fn missing_key_message_points_at_the_flag() {
    let e = PipelineError::MissingApiKey;
    assert_eq!(
        e.message(),
        "OpenAI API key required. Set OPENAI_API_KEY environment variable or pass --api-key"
    );
}

#[test]
fn hosted_success_is_trimmed() {
    let body = "{\"text\": \"  hello world  \"}";
    let parsed = parse_text_field(body);
    let text = accept_hosted_response(true, body, parsed.as_deref()).unwrap();
    let r = finish_transcription(&text);
    assert_eq!(r.unwrap(), "hello world");
}

#[test]
fn hosted_whitespace_text_is_empty_speech() {
    let body = "{\"text\": \"   \"}";
    let parsed = parse_text_field(body);
    let text = accept_hosted_response(true, body, parsed.as_deref()).unwrap();
    let r = finish_transcription(&text);
    assert!(matches!(r, Err(PipelineError::EmptySpeech)));
}

#[test]
fn empty_speech_message_is_fixed() {
    assert_eq!(PipelineError::EmptySpeech.message(), "No speech detected in audio file");
}

#[test]
fn hosted_bad_status_surfaces_the_body() {
    let body = "{\"error\": \"over quota\"}";
    let parsed = parse_text_field(body);
    let r = accept_hosted_response(false, body, parsed.as_deref());
    match r {
        Err(PipelineError::RemoteApi { body: b }) => {
            assert_eq!(b, "{\"error\": \"over quota\"}");
            assert_eq!(
                PipelineError::RemoteApi { body: b }.message(),
                "OpenAI API error: {\"error\": \"over quota\"}"
            );
        },
        _ => panic!("expected RemoteApi"),
    }
}

#[test]
fn hosted_unparsable_body_is_a_format_error() {
    let body = "not json at all";
    let parsed = parse_text_field(body);
    assert!(parsed.is_none());
    let r = accept_hosted_response(true, body, parsed.as_deref());
    assert!(matches!(r, Err(PipelineError::ResponseFormat)));
}

#[test]
fn hosted_json_without_text_field_is_a_format_error() {
    let parsed = parse_text_field("{\"transcript\": \"hi\"}");
    assert!(parsed.is_none());
    let r = accept_hosted_response(true, "{\"transcript\": \"hi\"}", parsed.as_deref());
    assert!(matches!(r, Err(PipelineError::ResponseFormat)));
}

#[test]
fn wire_constants_match_the_hosted_contract() {
    assert_eq!(hosted_endpoint(), "https://api.openai.com/v1/audio/transcriptions");
    assert_eq!(hosted_model(), "whisper-1");
    assert_eq!(hosted_response_format(), "json");
    assert_eq!(upload_file_name(), "audio.wav");
    assert_eq!(upload_mime_type(), "audio/wav");
}

#[test]
fn local_endpoints_are_tried_in_order() {
    let eps = local_endpoints();
    assert_eq!(
        eps,
        vec![
            "http://localhost:8000/transcribe",
            "http://localhost:5000/transcribe",
            "http://127.0.0.1:8000/transcribe",
        ]
    );
}

#[test]
fn local_probe_stops_at_second_endpoint() {
    // The first candidate is unreachable; the second answers well. The
    // result comes from the second and the third is never contacted.
    let outcomes: [(bool, bool, &str); 3] = [
        (false, false, ""),
        (true, true, "{\"text\": \"hola mundo\"}"),
        (true, true, "{\"text\": \"never reached\"}"),
    ];
    let mut contacted = 0;
    let mut st = local_probe_start();
    let text = loop {
        match st {
            LocalProbe::Trying { next } => {
                let (connected, status_ok, body) = outcomes[next];
                contacted += 1;
                let parsed = if connected { parse_text_field(body) } else { None };
                st = local_probe_step(next, connected, status_ok, parsed.as_deref());
            },
            LocalProbe::Done { text } => break Some(text),
            LocalProbe::Failed => break None,
        }
    };
    assert_eq!(text.unwrap(), "hola mundo");
    assert_eq!(contacted, 2);
}

#[test]
fn local_probe_fails_after_all_three() {
    let mut contacted = 0;
    let mut st = local_probe_start();
    let failed = loop {
        match st {
            LocalProbe::Trying { next } => {
                contacted += 1;
                st = local_probe_step(next, true, false, None);
            },
            LocalProbe::Done { text: _ } => break false,
            LocalProbe::Failed => break true,
        }
    };
    assert!(failed);
    assert_eq!(contacted, 3);
    assert_eq!(
        PipelineError::NoLocalBackend.message(),
        "No local Whisper API found. Tried: http://localhost:8000/transcribe, \
         http://localhost:5000/transcribe, http://127.0.0.1:8000/transcribe"
    );
}

#[test]
fn local_probe_skips_bad_status_and_bad_json() {
    let outcomes: [(bool, bool, &str); 3] = [
        (true, false, "service down"),
        (true, true, "plain text, not json"),
        (true, true, "{\"text\": \"third time lucky\"}"),
    ];
    let mut st = local_probe_start();
    let text = loop {
        match st {
            LocalProbe::Trying { next } => {
                let (connected, status_ok, body) = outcomes[next];
                let parsed = parse_text_field(body);
                st = local_probe_step(next, connected, status_ok, parsed.as_deref());
            },
            LocalProbe::Done { text } => break Some(text),
            LocalProbe::Failed => break None,
        }
    };
    assert_eq!(text.unwrap(), "third time lucky");
}
