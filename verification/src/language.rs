use vstd::prelude::*;

use crate::errors::TranslatorError;
use crate::util::str_eq;

verus! {

/// A validated two-letter language code from the closed supported set.
/// A value of this type exists only for a supported language, so the
/// pipeline never carries an unvalidated code internally.
#[derive(Clone, Copy, Debug, PartialEq, Eq, Structural)]
pub enum LanguageCode {
    En,
    Ru,
    De,
}

impl LanguageCode {
    /// The two-letter code of this language, as a character sequence.
    pub open spec fn code_spec(self) -> Seq<char> {
        match self {
            LanguageCode::En => "en"@,
            LanguageCode::Ru => "ru"@,
            LanguageCode::De => "de"@,
        }
    }

    /// The two-letter code of this language.
    pub fn code(self) -> (r: &'static str)
        ensures
            r@ == self.code_spec(),
    {
        match self {
            LanguageCode::En => "en",
            LanguageCode::Ru => "ru",
            LanguageCode::De => "de",
        }
    }

    /// The supported language named by a two-letter code, if any.
    pub open spec fn code_of_spec(s: Seq<char>) -> Option<LanguageCode> {
        if s == "en"@ {
            Some(LanguageCode::En)
        } else if s == "ru"@ {
            Some(LanguageCode::Ru)
        } else if s == "de"@ {
            Some(LanguageCode::De)
        } else {
            None
        }
    }

    /// Parses a two-letter code; `None` for anything outside the
    /// supported set.
    pub fn from_code(s: &str) -> (r: Option<LanguageCode>)
        ensures
            r == Self::code_of_spec(s@),
    {
        if str_eq(s, "en") {
            Some(LanguageCode::En)
        } else if str_eq(s, "ru") {
            Some(LanguageCode::Ru)
        } else if str_eq(s, "de") {
            Some(LanguageCode::De)
        } else {
            None
        }
    }
}

/// An ordered translation direction: a source and a target language,
/// always distinct.
#[derive(Clone, Copy, Debug, PartialEq, Eq, Structural)]
pub struct LanguagePair {
    pub source: LanguageCode,
    pub target: LanguageCode,
}

impl LanguagePair {
    /// The pair invariant: translating a language to itself is
    /// nonsensical, so a well-formed pair never maps a language to
    /// itself.
    pub open spec fn wf(self) -> bool {
        self.source != self.target
    }
}

/// The ISO 639-3 code of the language that the detection capability sees
/// in a text, if it sees one at all.  Detection is a pure function of the
/// text, so its outcome carries a name that contracts can share.
pub uninterp spec fn detected_code(text: Seq<char>) -> Option<Seq<char>>;

/// Relies on `whatlang::detect_lang` and `whatlang::Lang::code`:
/// detection reads nothing but the text, and `code` renders the detected
/// language as its ISO 639-3 code.
#[verifier::external_body]
fn detect_code(text: &str) -> (r: Option<String>)
    ensures
        match r {
            Some(c) => detected_code(text@) == Some(c@),
            None => detected_code(text@) == Option::<Seq<char>>::None,
        },
{
    whatlang::detect_lang(text).map(|lang| lang.code().to_string())
}

/// How a raw detection outcome maps into the supported set: no outcome
/// and an unsupported language both end in `DetectionFailed`; one failed
/// attempt is final.
pub open spec fn classify_spec(code: Option<Seq<char>>) -> Result<LanguageCode, TranslatorError> {
    match code {
        None => Err(TranslatorError::DetectionFailed),
        Some(c) => {
            if c == "eng"@ {
                Ok(LanguageCode::En)
            } else if c == "rus"@ {
                Ok(LanguageCode::Ru)
            } else if c == "deu"@ {
                Ok(LanguageCode::De)
            } else {
                Err(TranslatorError::DetectionFailed)
            }
        },
    }
}

/// Maps a raw detection outcome (an ISO 639-3 code, or none) to a
/// supported language code, folding an unsupported language into the
/// same failure as an unconfident detection.
pub fn classify_detection(code: Option<String>) -> (r: Result<LanguageCode, TranslatorError>)
    ensures
        r == classify_spec(code.deep_view()),
{
    match code {
        None => Err(TranslatorError::DetectionFailed),
        Some(c) => {
            if str_eq(c.as_str(), "eng") {
                Ok(LanguageCode::En)
            } else if str_eq(c.as_str(), "rus") {
                Ok(LanguageCode::Ru)
            } else if str_eq(c.as_str(), "deu") {
                Ok(LanguageCode::De)
            } else {
                Err(TranslatorError::DetectionFailed)
            }
        },
    }
}

/// Determines the language of the given text: the detection capability's
/// outcome, folded into the supported set.
pub fn detect_language(text: &str) -> (r: Result<LanguageCode, TranslatorError>)
    ensures
        r == classify_spec(detected_code(text@)),
{
    classify_detection(detect_code(text))
}

/// The policy default for a missing explicit target: the hub language
/// (English) maps to the configured secondary language (Russian); any
/// other source maps back to the hub language.
pub open spec fn default_target_spec(source: LanguageCode) -> LanguageCode {
    if source == LanguageCode::En {
        LanguageCode::Ru
    } else {
        LanguageCode::En
    }
}

/// Pair resolution: the explicit target if one was given, the policy
/// default otherwise; a pair whose languages coincide is rejected.
pub open spec fn resolve_pair_spec(source: LanguageCode, target: Option<LanguageCode>) -> Result<
    LanguagePair,
    TranslatorError,
> {
    let t = match target {
        Some(t) => t,
        None => default_target_spec(source),
    };
    if source == t {
        Err(TranslatorError::InvalidLanguagePair)
    } else {
        Ok(LanguagePair { source, target: t })
    }
}

/// Resolves the effective translation direction from a source language
/// and an optional explicit target.  Pure policy: no I/O, and no failure
/// path other than the source-differs-from-target invariant.
pub fn resolve_pair(source: LanguageCode, target: Option<LanguageCode>) -> (r: Result<
    LanguagePair,
    TranslatorError,
>)
    ensures
        r == resolve_pair_spec(source, target),
        r matches Ok(p) ==> p.wf(),
{
    let t = match target {
        Some(t) => t,
        None => {
            if source == LanguageCode::En {
                LanguageCode::Ru
            } else {
                LanguageCode::En
            }
        },
    };
    if source == t {
        Err(TranslatorError::InvalidLanguagePair)
    } else {
        Ok(LanguagePair { source, target: t })
    }
}

/// Law: resolving an explicit pair of two distinct supported codes
/// returns exactly that pair, unchanged.
pub proof fn lemma_explicit_pair_unchanged(a: LanguageCode, b: LanguageCode)
    requires
        a != b,
    ensures
        resolve_pair_spec(a, Some(b)) == Ok::<LanguagePair, TranslatorError>(
            (LanguagePair { source: a, target: b }),
        ),
{
}

/// Law: resolving with the hub language as source and no explicit target
/// yields the secondary language as target.
pub proof fn lemma_default_target_from_hub()
    ensures
        resolve_pair_spec(LanguageCode::En, None) == Ok::<LanguagePair, TranslatorError>(
            (LanguagePair { source: LanguageCode::En, target: LanguageCode::Ru }),
        ),
{
}

/// Law: resolving with any non-hub source and no explicit target yields
/// the hub language as target.
pub proof fn lemma_default_target_to_hub(source: LanguageCode)
    requires
        source != LanguageCode::En,
    ensures
        resolve_pair_spec(source, None) == Ok::<LanguagePair, TranslatorError>(
            (LanguagePair { source, target: LanguageCode::En }),
        ),
{
}

/// Law: resolving a pair whose explicitly supplied source and target are
/// equal fails with `InvalidLanguagePair`.
pub proof fn lemma_self_pair_rejected(a: LanguageCode)
    ensures
        resolve_pair_spec(a, Some(a)) == Err::<LanguagePair, TranslatorError>(
            TranslatorError::InvalidLanguagePair,
        ),
{
}

} // verus!
