//! The transcription client's decisions: which endpoint to use with which
//! credential, how a hosted response is accepted or rejected, how the fixed
//! list of local candidate endpoints is probed for a first success, and the
//! trimming and empty-speech check applied to every recognized text.
//!
//! The network calls themselves happen outside the verified core; it hands
//! the endpoint, field values and upload metadata out, and judges the plain
//! status, body and parsed text handed back.

use vstd::prelude::*;
use vstd::string::StrSliceExecFns;

use crate::errors::PipelineError;
use crate::text::trim;
use crate::text::trim_slice;

verus! {

/// Settings for transcription: the hosted API credential, if any, and
/// whether to prefer the local candidate endpoints.
pub struct AsrConfig {
    pub api_key: Option<String>,
    pub use_local: bool,
}

/// The single hosted transcription endpoint.
pub fn hosted_endpoint() -> (r: String)
    ensures
        r@ == "https://api.openai.com/v1/audio/transcriptions"@,
{
    "https://api.openai.com/v1/audio/transcriptions".to_owned()
}

/// The model field sent with a hosted upload.
pub fn hosted_model() -> (r: String)
    ensures
        r@ == "whisper-1"@,
{
    "whisper-1".to_owned()
}

/// The response-format field sent with a hosted upload.
pub fn hosted_response_format() -> (r: String)
    ensures
        r@ == "json"@,
{
    "json".to_owned()
}

/// The file name under which audio bytes are uploaded.
pub fn upload_file_name() -> (r: String)
    ensures
        r@ == "audio.wav"@,
{
    "audio.wav".to_owned()
}

/// The MIME type under which audio bytes are uploaded.
pub fn upload_mime_type() -> (r: String)
    ensures
        r@ == "audio/wav"@,
{
    "audio/wav".to_owned()
}

/// The candidate local transcription endpoints, in the order they are tried.
pub fn local_endpoints() -> (r: Vec<String>)
    ensures
        r@.len() == 3,
        r@[0]@ == "http://localhost:8000/transcribe"@,
        r@[1]@ == "http://localhost:5000/transcribe"@,
        r@[2]@ == "http://127.0.0.1:8000/transcribe"@,
{
    let mut v: Vec<String> = Vec::new();
    v.push("http://localhost:8000/transcribe".to_owned());
    v.push("http://localhost:5000/transcribe".to_owned());
    v.push("http://127.0.0.1:8000/transcribe".to_owned());
    v
}

/// The credential for the hosted endpoint; its absence is the configuration
/// failure, reported before anything is sent.
pub fn require_api_key(cfg: &AsrConfig) -> (r: Result<String, PipelineError>)
    ensures
        (cfg.api_key matches Some(k) ==> (r matches Ok(v) && v@ == k@)),
        (cfg.api_key is None ==> (r matches Err(e) && e is MissingApiKey)),
{
    match &cfg.api_key {
        Some(k) => Ok(k.clone()),
        None => Err(PipelineError::MissingApiKey),
    }
}

/// Judges the hosted endpoint's response: a non-success status surfaces the
/// response body as the remote failure, a body that did not parse as
/// `{"text": ...}` is a format failure, and otherwise the parsed text is the
/// recognized text.
pub fn accept_hosted_response(status_ok: bool, body: &str, parsed_text: Option<&str>) -> (r: Result<
    String,
    PipelineError,
>)
    ensures
        (!status_ok ==>
            (r matches Err(e)
                && e matches PipelineError::RemoteApi { body: b }
                && b@ == body@)),
        (status_ok && parsed_text is None ==> (r matches Err(e) && e is ResponseFormat)),
        (parsed_text matches Some(t) ==>
            (status_ok ==> (r matches Ok(v) && v@ == t@))),
{
    if !status_ok {
        Err(PipelineError::RemoteApi { body: body.to_owned() })
    } else {
        match parsed_text {
            Some(t) => Ok(t.to_owned()),
            None => Err(PipelineError::ResponseFormat),
        }
    }
}

/// Where a run through the local endpoints stands: the next candidate to
/// try, a recognized text already in hand, or every candidate exhausted.
pub enum LocalProbe {
    Trying { next: usize },
    Done { text: String },
    Failed,
}

/// Starts a run through the local endpoints.
pub fn local_probe_start() -> (r: LocalProbe)
    ensures
        (r matches LocalProbe::Trying { next } && next == 0),
{
    LocalProbe::Trying { next: 0 }
}

/// Judges one local endpoint's outcome and moves to the next state. An
/// endpoint counts only when it could be reached, answered with a success
/// status, and its body parsed as `{"text": ...}`; any other outcome
/// advances to the next candidate, and past the last one the probe fails.
pub fn local_probe_step(next: usize, connected: bool, status_ok: bool, parsed_text: Option<&str>)
    -> (r: LocalProbe)
    requires
        next < 3,
    ensures
        (parsed_text matches Some(t) ==>
            (connected && status_ok ==>
                (r matches LocalProbe::Done { text } && text@ == t@))),
        (!(connected && status_ok && parsed_text is Some) && next + 1 < 3 ==>
            (r matches LocalProbe::Trying { next: n2 } && n2 == next + 1)),
        (!(connected && status_ok && parsed_text is Some) && next + 1 == 3 ==>
            (r is Failed)),
{
    if connected && status_ok {
        if let Some(t) = parsed_text {
            return LocalProbe::Done { text: t.to_owned() };
        }
    }
    if next + 1 < 3 {
        LocalProbe::Trying { next: next + 1 }
    } else {
        LocalProbe::Failed
    }
}

/// Post-processing applied to every recognized text, from either backend:
/// the text is trimmed, and a text that trims to nothing is the empty-speech
/// failure.
pub fn finish_transcription(text: &str) -> (r: Result<String, PipelineError>)
    ensures
        (trim(text@).len() == 0 ==> (r matches Err(e) && e is EmptySpeech)),
        (trim(text@).len() > 0 ==> (r matches Ok(v) && v@ == trim(text@))),
{
    let t = trim_slice(text);
    if t.unicode_len() == 0 {
        Err(PipelineError::EmptySpeech)
    } else {
        Ok(t.to_owned())
    }
}

} // verus!
