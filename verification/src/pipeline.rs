use vstd::prelude::*;

use crate::errors::ErrorKind;
use crate::errors::TranslatorError;
use crate::language::LanguageCode;
use crate::language::LanguagePair;
use crate::language::classify_spec;
use crate::language::detect_language;
use crate::language::detected_code;
use crate::language::resolve_pair;
use crate::language::resolve_pair_spec;
use crate::translator::interpret_spec;
use crate::translator::outcome_of;

verus! {

/// How an explicit override code maps to a language: a code outside the
/// supported set is rejected as an invalid pair.
pub open spec fn parse_override_spec(code: Seq<char>) -> Result<LanguageCode, TranslatorError> {
    match LanguageCode::code_of_spec(code) {
        Some(c) => Ok(c),
        None => Err(TranslatorError::InvalidLanguagePair),
    }
}

/// The language pair one invocation translates under: the explicit
/// source override where one was supplied (detection is skipped
/// entirely), the detected language otherwise; the explicit target
/// override where one was supplied, the policy default otherwise.
pub open spec fn plan_spec(
    text: Seq<char>,
    source_override: Option<Seq<char>>,
    target_override: Option<Seq<char>>,
) -> Result<LanguagePair, TranslatorError> {
    let source = match source_override {
        Some(s) => parse_override_spec(s),
        None => classify_spec(detected_code(text)),
    };
    match source {
        Err(e) => Err(e),
        Ok(src) => match target_override {
            Some(t) => match parse_override_spec(t) {
                Err(e) => Err(e),
                Ok(tc) => resolve_pair_spec(src, Some(tc)),
            },
            None => resolve_pair_spec(src, None),
        },
    }
}

/// Resolves the effective translation direction for one invocation from
/// the input text and the optional explicit overrides.
pub fn resolve_request(
    text: &str,
    source_override: Option<&str>,
    target_override: Option<&str>,
) -> (r: Result<LanguagePair, TranslatorError>)
    ensures
        r == plan_spec(text@, source_override.deep_view(), target_override.deep_view()),
        r matches Ok(p) ==> p.wf(),
{
    let source = match source_override {
        Some(s) => match LanguageCode::from_code(s) {
            Some(c) => c,
            None => {
                return Err(TranslatorError::InvalidLanguagePair);
            },
        },
        None => match detect_language(text) {
            Ok(c) => c,
            Err(e) => {
                return Err(e);
            },
        },
    };
    let target = match target_override {
        Some(t) => match LanguageCode::from_code(t) {
            Some(c) => Some(c),
            None => {
                return Err(TranslatorError::InvalidLanguagePair);
            },
        },
        None => None,
    };
    resolve_pair(source, target)
}

/// The outcome of one whole invocation, as a function of the input
/// text, the overrides, and the remote service's answer.  The pipeline
/// is a straight line - identify, resolve, translate - and every
/// failure is terminal: an invocation that fails before the remote call
/// never reaches it.
pub open spec fn pipeline_spec(
    text: Seq<char>,
    source_override: Option<Seq<char>>,
    target_override: Option<Seq<char>>,
    status: u16,
    body: Option<Seq<char>>,
) -> Result<Seq<char>, (ErrorKind, Seq<char>)> {
    match plan_spec(text, source_override, target_override) {
        Err(e) => Err((e.kind(), e.detail())),
        Ok(_pair) => interpret_spec(status, body),
    }
}

/// Law: a run assembled from the two decision stages - pair resolution
/// before the remote call, response interpretation after it - reaches
/// exactly the pipeline outcome: a resolution failure is terminal and
/// the remote call is never interpreted, while a resolved run's outcome
/// is the response's interpretation.
pub proof fn lemma_pipeline_composition(
    plan: Result<LanguagePair, TranslatorError>,
    outcome: Result<String, TranslatorError>,
    text: Seq<char>,
    source_override: Option<Seq<char>>,
    target_override: Option<Seq<char>>,
    status: u16,
    body: Option<Seq<char>>,
)
    requires
        plan == plan_spec(text, source_override, target_override),
        outcome_of(outcome) == interpret_spec(status, body),
    ensures
        pipeline_spec(text, source_override, target_override, status, body) == (match plan {
            Err(e) => Err::<Seq<char>, (ErrorKind, Seq<char>)>((e.kind(), e.detail())),
            Ok(_) => outcome_of(outcome),
        }),
{
}

/// Law: the pipeline is deterministic.  Two runs over identical input
/// text, identical overrides and an unchanged remote answer reach the
/// same outcome - in particular, two successful runs produce identical
/// output content.
pub proof fn lemma_pipeline_deterministic(
    r1: Result<String, TranslatorError>,
    r2: Result<String, TranslatorError>,
    text: Seq<char>,
    source_override: Option<Seq<char>>,
    target_override: Option<Seq<char>>,
    status: u16,
    body: Option<Seq<char>>,
)
    requires
        outcome_of(r1) == pipeline_spec(text, source_override, target_override, status, body),
        outcome_of(r2) == pipeline_spec(text, source_override, target_override, status, body),
    ensures
        outcome_of(r1) == outcome_of(r2),
        r1 matches Ok(t1) ==> (r2 matches Ok(t2) && t1@ == t2@),
{
}

} // verus!
