//! The pipeline's failure taxonomy. Every component reports one of these
//! typed failures instead of terminating; only the callers at the process
//! edge turn one into a printed message or an HTTP error envelope.

use vstd::prelude::*;
use vstd::string::StringExecFns;

verus! {

/// A typed failure of the transcription or translation pipeline.
#[derive(Debug)]
pub enum PipelineError {
    /// The hosted transcription endpoint was selected but no credential was given.
    MissingApiKey,
    /// The hosted transcription endpoint answered with a non-success status;
    /// `body` is the response body it sent.
    RemoteApi { body: String },
    /// A transcription response could not be read as `{"text": ...}`.
    ResponseFormat,
    /// Every candidate local transcription endpoint was tried and none worked.
    NoLocalBackend,
    /// Transcription succeeded but yielded only whitespace.
    EmptySpeech,
    /// The translation model file is missing from disk.
    ModelNotFound { model_path: String },
    /// A direction token other than "es-en" or "en-es" was given.
    InvalidDirection { token: String },
}

/// The human-readable message for each failure.
pub open spec fn message_spec(e: PipelineError) -> Seq<char> {
    match e {
        PipelineError::MissingApiKey =>
            "OpenAI API key required. Set OPENAI_API_KEY environment variable or pass --api-key"@,
        PipelineError::RemoteApi { body } => "OpenAI API error: "@ + body@,
        PipelineError::ResponseFormat => "Failed to parse transcription response"@,
        PipelineError::NoLocalBackend =>
            "No local Whisper API found. Tried: http://localhost:8000/transcribe, http://localhost:5000/transcribe, http://127.0.0.1:8000/transcribe"@,
        PipelineError::EmptySpeech => "No speech detected in audio file"@,
        PipelineError::ModelNotFound { model_path } =>
            "Gemma model not found at: "@ + model_path@ + ". Please download the model first."@,
        PipelineError::InvalidDirection { token } => "Invalid direction. Use 'es-en' or 'en-es'"@,
    }
}

impl PipelineError {
    /// The message that callers print or send for this failure.
    pub fn message(&self) -> (r: String)
        ensures
            r@ == message_spec(*self),
    {
        match self {
            PipelineError::MissingApiKey => {
                "OpenAI API key required. Set OPENAI_API_KEY environment variable or pass --api-key".to_owned()
            },
            PipelineError::RemoteApi { body } => {
                let mut out = "OpenAI API error: ".to_owned();
                out.append(body.as_str());
                out
            },
            PipelineError::ResponseFormat => {
                "Failed to parse transcription response".to_owned()
            },
            PipelineError::NoLocalBackend => {
                "No local Whisper API found. Tried: http://localhost:8000/transcribe, http://localhost:5000/transcribe, http://127.0.0.1:8000/transcribe".to_owned()
            },
            PipelineError::EmptySpeech => {
                "No speech detected in audio file".to_owned()
            },
            PipelineError::ModelNotFound { model_path } => {
                let mut out = "Gemma model not found at: ".to_owned();
                out.append(model_path.as_str());
                out.append(". Please download the model first.");
                out
            },
            PipelineError::InvalidDirection { token: _ } => {
                "Invalid direction. Use 'es-en' or 'en-es'".to_owned()
            },
        }
    }
}

} // verus!
