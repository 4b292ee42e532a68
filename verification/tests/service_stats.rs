use speech_translator::platform::clamp_threads;
use speech_translator::platform::threads_hint;
use speech_translator::service::service_finish;
use speech_translator::service::service_prepare;
use speech_translator::service::ui_gemma_config;
use speech_translator::service::JobReq;
use speech_translator::service::ServiceReply;
use speech_translator::service::ServiceStep;
use speech_translator::stats::PerfSample;
use speech_translator::stats::PerfTracker;
use speech_translator::stats::DEFAULT_HISTORY_CAPACITY;
use speech_translator::text::trim_slice;
use speech_translator::text::usize_to_string;

fn req(direction: &str, text: &str) -> JobReq {
    JobReq { direction: String::from(direction), text: String::from(text) }
}

fn sample(i: u64) -> PerfSample {
    PerfSample { timestamp: i, cpu_milli: 10 * i, mem_used_mb: 100 + i }
}

#[test]
fn invalid_direction_is_a_bad_request() {
    let r = service_prepare(&req("de-en", "hallo"), true);
    match r {
        ServiceStep::Reply { reply: ServiceReply::BadRequest { error } } => {
            assert_eq!(error, "Invalid direction. Use 'es-en' or 'en-es'");
        },
        _ => panic!("expected a bad-request reply"),
    }
    let r2 = service_finish(&req("de-en", "hallo"), None);
    assert!(matches!(r2, ServiceReply::BadRequest { error: _ }));
}

#[test]
fn empty_text_is_answered_without_a_backend_run() {
    let r = service_prepare(&req("es-en", "   "), true);
    match r {
        ServiceStep::Reply { reply: ServiceReply::Translated { direction, original, translated } } => {
            assert_eq!(direction, "es-en");
            assert_eq!(original, "   ");
            assert_eq!(translated, "");
        },
        _ => panic!("expected an immediate empty translation"),
    }
}

#[test]
fn missing_model_is_a_server_error() {
    let r = service_prepare(&req("es-en", "hola"), false);
    match r {
        ServiceStep::Reply { reply: ServiceReply::ServerError { error } } => {
            assert_eq!(
                error,
                "Translation failed: Gemma model not found at: \
                 models/gemma-2b-it.Q4_K_M.gguf. Please download the model first."
            );
        },
        _ => panic!("expected a server error"),
    }
}

#[test]
fn present_model_requests_a_backend_run() {
    let r = service_prepare(&req("en-es", "good night"), true);
    match r {
        ServiceStep::RunBackend { prompt } => {
            assert!(prompt.starts_with("<start_of_turn>system\n"));
            assert!(prompt.contains("English text to Spanish"));
            assert!(prompt.ends_with("<start_of_turn>user\ngood night\n<end_of_turn>\n<start_of_turn>model\n"));
        },
        _ => panic!("expected a backend run"),
    }
}

#[test]
fn finish_uses_fallback_without_backend_text() {
    let r = service_finish(&req("es-en", "hola"), None);
    match r {
        ServiceReply::Translated { direction, original, translated } => {
            assert_eq!(direction, "es-en");
            assert_eq!(original, "hola");
            assert_eq!(translated, "Hello");
        },
        _ => panic!("expected a translated reply"),
    }
}

#[test]
fn finish_uses_backend_text_when_it_produced_any() {
    let r = service_finish(&req("en-es", "the weather is nice"), Some("El clima está agradable"));
    match r {
        ServiceReply::Translated { translated, .. } => {
            assert_eq!(translated, "El clima está agradable");
        },
        _ => panic!("expected a translated reply"),
    }
}

#[test]
fn ui_config_is_fixed() {
    let cfg = ui_gemma_config();
    assert_eq!(cfg.model_path, "models/gemma-2b-it.Q4_K_M.gguf");
    assert_eq!(cfg.n_ctx, 2048);
}

#[test]
fn ring_keeps_only_the_most_recent_samples() {
    let cap = DEFAULT_HISTORY_CAPACITY;
    assert_eq!(cap, 60);
    let mut tracker = PerfTracker::new(cap);
    let n: u64 = 70;
    for i in 0..n {
        tracker.record(sample(i));
    }
    assert_eq!(tracker.history.len(), cap);
    assert_eq!(tracker.history[0], sample(10));
    assert_eq!(tracker.history[cap - 1], sample(69));
}

#[test]
fn ring_below_capacity_keeps_everything() {
    let mut tracker = PerfTracker::new(60);
    for i in 0..5u64 {
        tracker.record(sample(i));
    }
    assert_eq!(tracker.history.len(), 5);
    for i in 0..5usize {
        assert_eq!(tracker.history[i], sample(i as u64));
    }
}

#[test]
fn peaks_only_rise() {
    let mut tracker = PerfTracker::new(4);
    tracker.record(PerfSample { timestamp: 0, cpu_milli: 500, mem_used_mb: 120 });
    tracker.record(PerfSample { timestamp: 1, cpu_milli: 2500, mem_used_mb: 80 });
    tracker.record(PerfSample { timestamp: 2, cpu_milli: 1000, mem_used_mb: 300 });
    tracker.record(PerfSample { timestamp: 3, cpu_milli: 100, mem_used_mb: 90 });
    assert_eq!(tracker.peak_cpu_milli, 2500);
    assert_eq!(tracker.peak_mem_mb, 300);
}

#[test]
fn reset_clears_history_and_peaks() {
    let mut tracker = PerfTracker::new(8);
    for i in 0..12u64 {
        tracker.record(sample(i));
    }
    tracker.reset();
    assert_eq!(tracker.history.len(), 0);
    assert_eq!(tracker.peak_cpu_milli, 0);
    assert_eq!(tracker.peak_mem_mb, 0);
    assert_eq!(tracker.max_history, 8);
}

#[test]
fn thread_hint_stays_in_band() {
    let n = threads_hint();
    assert!((2..=8).contains(&n));
    assert_eq!(clamp_threads(0), 2);
    assert_eq!(clamp_threads(1), 2);
    assert_eq!(clamp_threads(4), 4);
    assert_eq!(clamp_threads(8), 8);
    assert_eq!(clamp_threads(64), 8);
}

#[test]
fn decimal_rendering_is_exact() {
    assert_eq!(usize_to_string(0), "0");
    assert_eq!(usize_to_string(7), "7");
    assert_eq!(usize_to_string(10), "10");
    assert_eq!(usize_to_string(256), "256");
    assert_eq!(usize_to_string(2048), "2048");
    assert_eq!(usize_to_string(1234567), "1234567");
}

#[test]
fn trimming_matches_the_pipeline_rule() {
    assert_eq!(trim_slice("  hello world  "), "hello world");
    assert_eq!(trim_slice("\t\n hola \r\n"), "hola");
    assert_eq!(trim_slice("   "), "");
    assert_eq!(trim_slice(""), "");
    assert_eq!(trim_slice("x"), "x");
}
