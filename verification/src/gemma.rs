//! The translation engine: prompt construction for the external inference
//! backend, extraction of the backend's text from its output, and the fixed
//! bilingual fallback dictionary used when no backend produces anything.
//!
//! Running the backend itself is a subprocess invocation and happens outside
//! this crate's verified core; the functions here make every decision around
//! it: whether a backend run is needed at all, which candidate executables to
//! try with which arguments, whether a run's output counts as a translation,
//! and what to answer when none does.

use vstd::prelude::*;
use vstd::string::StrSliceExecFns;
use vstd::string::StringExecFns;

use crate::errors::PipelineError;
use crate::text::dec_digits;
use crate::text::find_pat;
use crate::text::find_first;
use crate::text::lemma_find_some;
use crate::text::lower_all;
use crate::text::lower_eq;
use crate::text::str_eq;
use crate::text::trim;
use crate::text::trim_slice;
use crate::text::usize_to_string;

verus! {

/// Settings for the external translation backend: where the model file lives
/// and how many context tokens to give the process.
pub struct GemmaConfig {
    pub model_path: String,
    pub n_ctx: usize,
}

/// Which of the two supported language pairs a request targets.
#[derive(Clone, Copy, Debug, PartialEq, Eq, Structural)]
pub enum Direction {
    EnToEs,
    EsToEn,
}

/// The direction named by a textual token, if any.
pub open spec fn parse_direction(s: Seq<char>) -> Option<Direction> {
    if s == "en-es"@ {
        Some(Direction::EnToEs)
    } else if s == "es-en"@ {
        Some(Direction::EsToEn)
    } else {
        None
    }
}

impl Direction {
    /// Parses the tokens "en-es" and "es-en"; any other token is rejected.
    pub fn from_str(s: &str) -> (r: Option<Self>)
        ensures
            r == parse_direction(s@),
    {
        if str_eq(s, "en-es") {
            Some(Direction::EnToEs)
        } else if str_eq(s, "es-en") {
            Some(Direction::EsToEn)
        } else {
            None
        }
    }
}

/// The fixed system instruction embedded in the prompt, one per direction.
pub open spec fn system_prompt_spec(dir: Direction) -> Seq<char> {
    match dir {
        Direction::EsToEn =>
            "You are a professional translator. Translate the following Spanish text to English. Only provide the translation, nothing else."@,
        Direction::EnToEs =>
            "You are a professional translator. Translate the following English text to Spanish. Only provide the translation, nothing else."@,
    }
}

/// The turn-delimited prompt handed to the backend: the system instruction
/// and the trimmed source text between literal turn markers.
pub open spec fn prompt_spec(dir: Direction, input: Seq<char>) -> Seq<char> {
    "<start_of_turn>system\n"@ + system_prompt_spec(dir) + "\n<end_of_turn>\n<start_of_turn>user\n"@
        + trim(input) + "\n<end_of_turn>\n<start_of_turn>model\n"@
}

/// Builds the prompt for one translation request.
pub fn build_prompt(dir: Direction, input: &str) -> (r: String)
    ensures
        r@ == prompt_spec(dir, input@),
{
    let mut out = "<start_of_turn>system\n".to_owned();
    match dir {
        Direction::EsToEn => {
            out.append("You are a professional translator. Translate the following Spanish text to English. Only provide the translation, nothing else.");
        },
        Direction::EnToEs => {
            out.append("You are a professional translator. Translate the following English text to Spanish. Only provide the translation, nothing else.");
        },
    }
    out.append("\n<end_of_turn>\n<start_of_turn>user\n");
    out.append(trim_slice(input));
    out.append("\n<end_of_turn>\n<start_of_turn>model\n");
    proof {
        assert(out@ =~= prompt_spec(dir, input@));
    }
    out
}

/// The marker after which the backend's own text starts.
pub open spec fn model_marker() -> Seq<char> {
    "<start_of_turn>model"@
}

/// The translation contained in a backend's raw standard output: the text
/// after the first `<start_of_turn>model` marker and its next newline,
/// trimmed; `None` when the marker or newline is absent or only whitespace
/// follows them.
pub open spec fn extracted(out: Seq<char>) -> Option<Seq<char>> {
    match find_pat(out, model_marker()) {
        None => None,
        Some(i) => {
            let rest = out.subrange(i, out.len() as int);
            match find_pat(rest, "\n"@) {
                None => None,
                Some(j) => {
                    let t = trim(rest.subrange(j + 1, rest.len() as int));
                    if t.len() == 0 {
                        None
                    } else {
                        Some(t)
                    }
                },
            }
        },
    }
}

/// Picks the translated text out of a backend's raw standard output.
pub fn extract_model_output(out: &str) -> (r: Option<String>)
    ensures
        (r matches Some(t) ==> extracted(out@) == Some(t@)),
        (r is None ==> extracted(out@) is None),
{
    let n = s_len(out);
    match find_first(out, "<start_of_turn>model") {
        None => None,
        Some(i) => {
            proof {
                lemma_find_some(out@, "<start_of_turn>model"@, 0, i as int);
            }
            let rest = out.substring_char(i, n);
            match find_first(rest, "\n") {
                None => None,
                Some(j) => {
                    proof {
                        reveal_strlit("\n");
                        lemma_find_some(rest@, "\n"@, 0, j as int);
                    }
                    let rn = s_len(rest);
                    let tail = rest.substring_char(j + 1, rn);
                    let t = trim_slice(tail);
                    if s_len(t) == 0 {
                        None
                    } else {
                        Some(t.to_owned())
                    }
                },
            }
        },
    }
}

/// The character length of a string slice.
fn s_len(s: &str) -> (n: usize)
    ensures
        n == s@.len(),
{
    s.unicode_len()
}

/// The candidate executable names tried for the external backend, in order.
pub fn backend_candidates() -> (r: Vec<String>)
    ensures
        r@.len() == 4,
        r@[0]@ == "llama"@,
        r@[1]@ == "llama-cli"@,
        r@[2]@ == "main"@,
        r@[3]@ == "./llama.cpp/main"@,
{
    let mut v: Vec<String> = Vec::new();
    v.push("llama".to_owned());
    v.push("llama-cli".to_owned());
    v.push("main".to_owned());
    v.push("./llama.cpp/main".to_owned());
    v
}

/// The argument list for one backend invocation: model path, prompt, context
/// size, a 256-token output cap, temperature 0.1 and batch size 1.
pub fn backend_args(cfg: &GemmaConfig, prompt: &str) -> (r: Vec<String>)
    ensures
        r@.len() == 12,
        r@[0]@ == "-m"@,
        r@[1]@ == cfg.model_path@,
        r@[2]@ == "-p"@,
        r@[3]@ == prompt@,
        r@[4]@ == "-c"@,
        r@[5]@ == dec_digits(cfg.n_ctx as nat),
        r@[6]@ == "-n"@,
        r@[7]@ == "256"@,
        r@[8]@ == "--temp"@,
        r@[9]@ == "0.1"@,
        r@[10]@ == "-b"@,
        r@[11]@ == "1"@,
{
    let mut v: Vec<String> = Vec::new();
    v.push("-m".to_owned());
    v.push(cfg.model_path.clone());
    v.push("-p".to_owned());
    v.push(prompt.to_owned());
    v.push("-c".to_owned());
    v.push(usize_to_string(cfg.n_ctx));
    v.push("-n".to_owned());
    v.push("256".to_owned());
    v.push("--temp".to_owned());
    v.push("0.1".to_owned());
    v.push("-b".to_owned());
    v.push("1".to_owned());
    v
}

/// Where a run through the backend candidates stands: the next candidate to
/// try, a translation already in hand, or every candidate exhausted.
pub enum BackendProbe {
    Trying { next: usize },
    Done { text: String },
    Exhausted,
}

/// Starts a run through the backend candidates.
pub fn backend_probe_start() -> (r: BackendProbe)
    ensures
        (r matches BackendProbe::Trying { next } && next == 0),
{
    BackendProbe::Trying { next: 0 }
}

/// Judges one candidate's run and moves to the next state. A candidate
/// counts only when it could be spawned, exited successfully, and its output
/// contains a non-empty translation after the turn marker; any other outcome
/// advances to the next candidate.
pub fn backend_probe_step(next: usize, ran: bool, exit_ok: bool, stdout: &str) -> (r: BackendProbe)
    requires
        next < 4,
    ensures
        (ran && exit_ok && extracted(stdout@) is Some ==>
            (r matches BackendProbe::Done { text } && extracted(stdout@) == Some(text@))),
        (!(ran && exit_ok && extracted(stdout@) is Some) && next + 1 < 4 ==>
            (r matches BackendProbe::Trying { next: n2 } && n2 == next + 1)),
        (!(ran && exit_ok && extracted(stdout@) is Some) && next + 1 == 4 ==>
            (r is Exhausted)),
{
    if ran && exit_ok {
        if let Some(t) = extract_model_output(stdout) {
            return BackendProbe::Done { text: t };
        }
    }
    if next + 1 < 4 {
        BackendProbe::Trying { next: next + 1 }
    } else {
        BackendProbe::Exhausted
    }
}

/// The normalized key a phrase is looked up under: trimmed and lowercased.
pub open spec fn norm(s: Seq<char>) -> Seq<char> {
    lower_all(trim(s))
}

/// The fixed Spanish-to-English phrase table, keyed by normalized phrase.
pub open spec fn es_en_lookup(key: Seq<char>) -> Option<Seq<char>> {
    if key == "hola"@ { Some("Hello"@) }
    else if key == "adiós"@ || key == "adios"@ { Some("Goodbye"@) }
    else if key == "gracias"@ { Some("Thank you"@) }
    else if key == "por favor"@ { Some("Please"@) }
    else if key == "lo siento"@ { Some("I'm sorry"@) }
    else if key == "sí"@ || key == "si"@ { Some("Yes"@) }
    else if key == "no"@ { Some("No"@) }
    else if key == "buenos días"@ || key == "buenos dias"@ { Some("Good morning"@) }
    else if key == "buenas noches"@ { Some("Good night"@) }
    else if key == "¿cómo estás?"@ || key == "como estas"@ { Some("How are you?"@) }
    else { None }
}

/// The fixed English-to-Spanish phrase table, keyed by normalized phrase.
pub open spec fn en_es_lookup(key: Seq<char>) -> Option<Seq<char>> {
    if key == "hello"@ || key == "hi"@ { Some("Hola"@) }
    else if key == "goodbye"@ || key == "bye"@ { Some("Adiós"@) }
    else if key == "thank you"@ || key == "thanks"@ { Some("Gracias"@) }
    else if key == "please"@ { Some("Por favor"@) }
    else if key == "sorry"@ || key == "i'm sorry"@ { Some("Lo siento"@) }
    else if key == "yes"@ { Some("Sí"@) }
    else if key == "no"@ { Some("No"@) }
    else if key == "good morning"@ { Some("Buenos días"@) }
    else if key == "good night"@ { Some("Buenas noches"@) }
    else if key == "how are you?"@ || key == "how are you"@ { Some("¿Cómo estás?"@) }
    else { None }
}

/// The phrase table for a direction.
pub open spec fn dir_lookup(dir: Direction, key: Seq<char>) -> Option<Seq<char>> {
    match dir {
        Direction::EsToEn => es_en_lookup(key),
        Direction::EnToEs => en_es_lookup(key),
    }
}

/// The placeholder tag prefixed to inputs the table does not cover.
pub open spec fn fallback_tag(dir: Direction) -> Seq<char> {
    match dir {
        Direction::EsToEn => "[Translation] "@,
        Direction::EnToEs => "[Traducción] "@,
    }
}

/// The fallback translation: the table value for a covered phrase, otherwise
/// the direction's tag followed by the original, untrimmed input.
pub open spec fn fallback_spec(dir: Direction, input: Seq<char>) -> Seq<char> {
    match dir_lookup(dir, norm(input)) {
        Some(v) => v,
        None => fallback_tag(dir) + input,
    }
}

/// For every input whose normalized form the table does not cover, the
/// fallback result is exactly the direction's tag followed by the original,
/// untrimmed input.
pub proof fn lemma_fallback_uncovered(dir: Direction, input: Seq<char>)
    requires
        dir_lookup(dir, norm(input)) is None,
    ensures
        fallback_spec(dir, input) == fallback_tag(dir) + input,
{
}

/// For every input whose normalized form the table covers, the fallback
/// result is the fixed table value.
pub proof fn lemma_fallback_covered(dir: Direction, input: Seq<char>, v: Seq<char>)
    requires
        dir_lookup(dir, norm(input)) == Some(v),
    ensures
        fallback_spec(dir, input) == v,
{
}

/// The fallback result of a covered phrase does not depend on letter case
/// or surrounding whitespace: any two inputs with the same normalized form
/// translate alike.
pub proof fn lemma_fallback_case_insensitive(dir: Direction, a: Seq<char>, b: Seq<char>)
    requires
        dir_lookup(dir, norm(a)) is Some,
        norm(a) == norm(b),
    ensures
        fallback_spec(dir, a) == fallback_spec(dir, b),
{
}

/// Translates through the fixed phrase table, with the tagged placeholder
/// for phrases the table does not cover. Never fails.
pub fn fallback_translate(dir: Direction, input: &str) -> (r: String)
    ensures
        r@ == fallback_spec(dir, input@),
{
    let t = trim_slice(input);
    match dir {
        Direction::EsToEn => {
            if lower_eq(t, "hola") { "Hello".to_owned() }
            else if lower_eq(t, "adiós") || lower_eq(t, "adios") { "Goodbye".to_owned() }
            else if lower_eq(t, "gracias") { "Thank you".to_owned() }
            else if lower_eq(t, "por favor") { "Please".to_owned() }
            else if lower_eq(t, "lo siento") { "I'm sorry".to_owned() }
            else if lower_eq(t, "sí") || lower_eq(t, "si") { "Yes".to_owned() }
            else if lower_eq(t, "no") { "No".to_owned() }
            else if lower_eq(t, "buenos días") || lower_eq(t, "buenos dias") { "Good morning".to_owned() }
            else if lower_eq(t, "buenas noches") { "Good night".to_owned() }
            else if lower_eq(t, "¿cómo estás?") || lower_eq(t, "como estas") { "How are you?".to_owned() }
            else {
                let mut out = "[Translation] ".to_owned();
                out.append(input);
                out
            }
        },
        Direction::EnToEs => {
            if lower_eq(t, "hello") || lower_eq(t, "hi") { "Hola".to_owned() }
            else if lower_eq(t, "goodbye") || lower_eq(t, "bye") { "Adiós".to_owned() }
            else if lower_eq(t, "thank you") || lower_eq(t, "thanks") { "Gracias".to_owned() }
            else if lower_eq(t, "please") { "Por favor".to_owned() }
            else if lower_eq(t, "sorry") || lower_eq(t, "i'm sorry") { "Lo siento".to_owned() }
            else if lower_eq(t, "yes") { "Sí".to_owned() }
            else if lower_eq(t, "no") { "No".to_owned() }
            else if lower_eq(t, "good morning") { "Buenos días".to_owned() }
            else if lower_eq(t, "good night") { "Buenas noches".to_owned() }
            else if lower_eq(t, "how are you?") || lower_eq(t, "how are you") { "¿Cómo estás?".to_owned() }
            else {
                let mut out = "[Traducción] ".to_owned();
                out.append(input);
                out
            }
        },
    }
}

/// What a translation request needs next: an answer is already decided, the
/// request fails, or the external backend must be run with the given prompt.
pub enum TranslateAction {
    Finish { output: String },
    Fail { error: PipelineError },
    RunBackend { prompt: String },
}

/// Decides a translation request up to the backend run. Empty or
/// whitespace-only input finishes immediately with an empty answer, before
/// the model file or any backend is consulted; otherwise a missing model
/// file is fatal, and only then is a backend run requested.
pub fn translate_prepare(cfg: &GemmaConfig, dir: Direction, input: &str, model_exists: bool) -> (r:
    TranslateAction)
    ensures
        (trim(input@).len() == 0 ==>
            (r matches TranslateAction::Finish { output } && output@ == Seq::<char>::empty())),
        (trim(input@).len() > 0 && !model_exists ==>
            (r matches TranslateAction::Fail { error }
                && error matches PipelineError::ModelNotFound { model_path }
                && model_path@ == cfg.model_path@)),
        (trim(input@).len() > 0 && model_exists ==>
            (r matches TranslateAction::RunBackend { prompt } && prompt@ == prompt_spec(dir, input@))),
{
    let t = trim_slice(input);
    if t.unicode_len() == 0 {
        TranslateAction::Finish { output: String::new() }
    } else if !model_exists {
        TranslateAction::Fail {
            error: PipelineError::ModelNotFound { model_path: cfg.model_path.clone() },
        }
    } else {
        TranslateAction::RunBackend { prompt: build_prompt(dir, input) }
    }
}

/// What a translation answers once the backend outcome is known: the
/// backend's text when it produced any, otherwise the fallback translation.
pub open spec fn translate_output_spec(dir: Direction, input: Seq<char>, backend: Option<Seq<char>>)
    -> Seq<char> {
    match backend {
        Some(t) => if trim(t).len() > 0 {
            trim(t)
        } else {
            fallback_spec(dir, input)
        },
        None => fallback_spec(dir, input),
    }
}

/// Translates `input` in direction `dir`. `model_exists` says whether the
/// model file at `cfg.model_path` is present on disk, and `backend_text` is
/// what the external backend produced, if any run of it was accepted.
/// Empty input short-circuits to an empty answer; a missing model file is
/// the only failure; otherwise the backend's text or the fallback dictionary
/// decides, and the call always succeeds.
pub fn translate(cfg: &GemmaConfig, dir: Direction, input: &str, model_exists: bool,
    backend_text: Option<&str>) -> (r: Result<String, PipelineError>)
    ensures
        (trim(input@).len() == 0 ==> (r matches Ok(out) && out@ == Seq::<char>::empty())),
        (trim(input@).len() > 0 && !model_exists ==>
            (r matches Err(e)
                && e matches PipelineError::ModelNotFound { model_path }
                && model_path@ == cfg.model_path@)),
        (backend_text matches Some(t) ==>
            (trim(input@).len() > 0 && model_exists ==>
                (r matches Ok(out) && out@ == translate_output_spec(dir, input@, Some(t@))))),
        (trim(input@).len() > 0 && model_exists && backend_text is None ==>
            (r matches Ok(out) && out@ == translate_output_spec(dir, input@, None))),
{
    match translate_prepare(cfg, dir, input, model_exists) {
        TranslateAction::Finish { output } => Ok(output),
        TranslateAction::Fail { error } => Err(error),
        TranslateAction::RunBackend { prompt: _ } => {
            match backend_text {
                Some(t) => {
                    let tt = trim_slice(t);
                    if tt.unicode_len() > 0 {
                        Ok(tt.to_owned())
                    } else {
                        Ok(fallback_translate(dir, input))
                    }
                },
                None => Ok(fallback_translate(dir, input)),
            }
        },
    }
}

} // verus!
