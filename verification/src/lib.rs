//! A speech-translation pipeline: recognized text is translated between
//! Spanish and English, preferring an external inference backend and falling
//! back to a fixed bilingual phrase dictionary.
//!
//! The crate holds the pipeline's decisions — direction parsing, prompt
//! construction, backend-output extraction, the fallback dictionary,
//! endpoint and executable probing, response acceptance, and the service
//! front end's bookkeeping — each with a proved contract. The surrounding
//! program performs the network, file, and subprocess work and feeds every
//! outcome back in as plain values.

pub mod asr;
pub mod errors;
pub mod gemma;
pub mod platform;
pub mod service;
pub mod stats;
pub mod text;
