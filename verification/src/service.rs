//! The service front end's decisions: how a translate request over HTTP is
//! parsed, which reply envelope it earns, and the fixed model configuration
//! the service translates with. Serving routes and encoding envelopes as
//! JSON happen outside the verified core.

use vstd::prelude::*;
use vstd::string::StringExecFns;

use crate::gemma::parse_direction;
use crate::gemma::prompt_spec;
use crate::gemma::translate;
use crate::gemma::translate_output_spec;
use crate::gemma::translate_prepare;
use crate::gemma::Direction;
use crate::gemma::GemmaConfig;
use crate::gemma::TranslateAction;
use crate::text::trim;

verus! {

/// A translate request as the HTTP client sends it: a direction token and
/// the text to translate.
pub struct JobReq {
    pub direction: String,
    pub text: String,
}

/// The reply a translate request earns: the success envelope's fields, a
/// client error (an invalid direction token), or a server error (the
/// translation itself failed).
pub enum ServiceReply {
    Translated { direction: String, original: String, translated: String },
    BadRequest { error: String },
    ServerError { error: String },
}

/// What the service does next for a request: answer at once, or run the
/// external backend with the given prompt and then answer.
pub enum ServiceStep {
    Reply { reply: ServiceReply },
    RunBackend { prompt: String },
}

/// The fixed model configuration the service front end translates with.
pub fn ui_gemma_config() -> (r: GemmaConfig)
    ensures
        r.model_path@ == "models/gemma-2b-it.Q4_K_M.gguf"@,
        r.n_ctx == 2048,
{
    GemmaConfig { model_path: "models/gemma-2b-it.Q4_K_M.gguf".to_owned(), n_ctx: 2048 }
}

/// The reply body for an invalid direction token.
pub open spec fn invalid_direction_message() -> Seq<char> {
    "Invalid direction. Use 'es-en' or 'en-es'"@
}

/// The reply body when the service's model file is missing.
pub open spec fn model_missing_reply_message() -> Seq<char> {
    "Translation failed: "@ + "Gemma model not found at: "@ + "models/gemma-2b-it.Q4_K_M.gguf"@
        + ". Please download the model first."@
}

/// Decides a translate request up to the backend run: an invalid direction
/// token is a client error; empty text succeeds at once with an empty
/// translation; a missing model file is a server error; otherwise the
/// backend must be run.
pub fn service_prepare(req: &JobReq, model_exists: bool) -> (r: ServiceStep)
    ensures
        (parse_direction(req.direction@) is None ==>
            (r matches ServiceStep::Reply { reply }
                && reply matches ServiceReply::BadRequest { error }
                && error@ == invalid_direction_message())),
        (parse_direction(req.direction@) matches Some(dir) ==> {
            &&& (trim(req.text@).len() == 0 ==>
                (r matches ServiceStep::Reply { reply }
                    && reply matches ServiceReply::Translated { direction, original, translated }
                    && direction@ == req.direction@
                    && original@ == req.text@
                    && translated@ == Seq::<char>::empty()))
            &&& (trim(req.text@).len() > 0 && !model_exists ==>
                (r matches ServiceStep::Reply { reply }
                    && reply matches ServiceReply::ServerError { error }
                    && error@ == model_missing_reply_message()))
            &&& (trim(req.text@).len() > 0 && model_exists ==>
                (r matches ServiceStep::RunBackend { prompt }
                    && prompt@ == prompt_spec(dir, req.text@)))
        }),
{
    match Direction::from_str(req.direction.as_str()) {
        None => ServiceStep::Reply {
            reply: ServiceReply::BadRequest {
                error: "Invalid direction. Use 'es-en' or 'en-es'".to_owned(),
            },
        },
        Some(dir) => {
            let cfg = ui_gemma_config();
            match translate_prepare(&cfg, dir, req.text.as_str(), model_exists) {
                TranslateAction::Finish { output } => ServiceStep::Reply {
                    reply: ServiceReply::Translated {
                        direction: req.direction.clone(),
                        original: req.text.clone(),
                        translated: output,
                    },
                },
                TranslateAction::Fail { error } => {
                    let mut msg = "Translation failed: ".to_owned();
                    let detail = error.message();
                    msg.append(detail.as_str());
                    proof {
                        assert(msg@ =~= model_missing_reply_message());
                    }
                    ServiceStep::Reply { reply: ServiceReply::ServerError { error: msg } }
                },
                TranslateAction::RunBackend { prompt } => ServiceStep::RunBackend { prompt },
            }
        },
    }
}

/// Answers a translate request once the backend outcome is known: the
/// backend's text when it produced any, otherwise the fallback translation,
/// in the success envelope; an invalid direction token is still a client
/// error.
pub fn service_finish(req: &JobReq, backend_text: Option<&str>) -> (r: ServiceReply)
    ensures
        (parse_direction(req.direction@) is None ==>
            (r matches ServiceReply::BadRequest { error }
                && error@ == invalid_direction_message())),
        (parse_direction(req.direction@) matches Some(dir) ==> {
            &&& (r matches ServiceReply::Translated { direction, original, translated: _ }
                && direction@ == req.direction@
                && original@ == req.text@)
            &&& (trim(req.text@).len() == 0 ==>
                (r matches ServiceReply::Translated { direction: _, original: _, translated }
                    && translated@ == Seq::<char>::empty()))
            &&& (backend_text matches Some(t) ==>
                (trim(req.text@).len() > 0 ==>
                    (r matches ServiceReply::Translated { direction: _, original: _, translated }
                        && translated@ == translate_output_spec(dir, req.text@, Some(t@)))))
            &&& (backend_text is None ==>
                (trim(req.text@).len() > 0 ==>
                    (r matches ServiceReply::Translated { direction: _, original: _, translated }
                        && translated@ == translate_output_spec(dir, req.text@, None))))
        }),
{
    match Direction::from_str(req.direction.as_str()) {
        None => ServiceReply::BadRequest {
            error: "Invalid direction. Use 'es-en' or 'en-es'".to_owned(),
        },
        Some(dir) => {
            let cfg = ui_gemma_config();
            match translate(&cfg, dir, req.text.as_str(), true, backend_text) {
                Ok(out) => ServiceReply::Translated {
                    direction: req.direction.clone(),
                    original: req.text.clone(),
                    translated: out,
                },
                Err(e) => {
                    let mut msg = "Translation failed: ".to_owned();
                    let detail = e.message();
                    msg.append(detail.as_str());
                    ServiceReply::ServerError { error: msg }
                },
            }
        },
    }
}

} // verus!
