use vstd::prelude::*;

use crate::errors::ErrorKind;
use crate::errors::TranslatorError;
use crate::json::json_escape;
use crate::json::response_text;
use crate::language::LanguagePair;
use crate::util::append_str;
use crate::util::string_of;

verus! {

/// The request payload sent to the remote translation service: a JSON
/// object carrying the text, the source code and the target code, with
/// the credential member present only when a credential is configured
/// (absent entirely, never empty or null).
pub open spec fn payload_spec(
    text: Seq<char>,
    source: Seq<char>,
    target: Seq<char>,
    api_key: Option<Seq<char>>,
) -> Seq<char> {
    "{\"q\":\""@ + json_escape(text) + "\",\"source\":\""@ + source + "\",\"target\":\""@ + target
        + (match api_key {
        None => Seq::<char>::empty(),
        Some(k) => "\",\"api_key\":\""@ + json_escape(k),
    }) + "\"}"@
}

/// One remote-translation request: created fresh per invocation and
/// immutable once built.
#[derive(Debug, PartialEq, Eq)]
pub struct TranslationRequest {
    pub text: String,
    pub pair: LanguagePair,
    pub credential: Option<String>,
}

impl TranslationRequest {
    /// A request carries a non-empty text and a well-formed direction.
    pub open spec fn wf(self) -> bool {
        self.text@.len() > 0 && self.pair.wf()
    }

    /// The JSON payload this request stands for.
    pub open spec fn payload(self) -> Seq<char> {
        payload_spec(
            self.text@,
            self.pair.source.code_spec(),
            self.pair.target.code_spec(),
            self.credential.deep_view(),
        )
    }

    /// Renders the request as its JSON payload.
    pub fn to_json(&self) -> (r: String)
        ensures
            r@ == self.payload(),
    {
        let mut out: Vec<char> = Vec::new();
        append_str(&mut out, "{\"q\":\"");
        crate::json::append_escaped(&mut out, self.text.as_str());
        append_str(&mut out, "\",\"source\":\"");
        append_str(&mut out, self.pair.source.code());
        append_str(&mut out, "\",\"target\":\"");
        append_str(&mut out, self.pair.target.code());
        match &self.credential {
            None => {},
            Some(k) => {
                append_str(&mut out, "\",\"api_key\":\"");
                crate::json::append_escaped(&mut out, k.as_str());
            },
        }
        append_str(&mut out, "\"}");
        proof {
            assert(out@ =~= self.payload());
        }
        string_of(&out)
    }
}

/// Whether an HTTP status counts as success.
pub open spec fn is_success_status(status: u16) -> bool {
    200 <= status < 300
}

/// How the remote service's answer maps to an outcome: a non-success
/// status is an API error carrying the body verbatim (or the fixed
/// fallback detail where the body could not be read); a success status
/// whose body has the expected shape yields the translated text,
/// unmodified; any other success body is a parse failure.
pub open spec fn interpret_spec(status: u16, body: Option<Seq<char>>) -> Result<
    Seq<char>,
    (ErrorKind, Seq<char>),
> {
    if !is_success_status(status) {
        Err(
            (
                ErrorKind::TranslationApiError,
                match body {
                    Some(b) => b,
                    None => "Unknown error"@,
                },
            ),
        )
    } else {
        match body {
            None => Err((ErrorKind::ResponseParseError, Seq::<char>::empty())),
            Some(b) => match response_text(b) {
                None => Err((ErrorKind::ResponseParseError, Seq::<char>::empty())),
                Some(t) => Ok(t),
            },
        }
    }
}

/// The view-level outcome of a pipeline result: the translated text, or
/// the failure's kind with its diagnostic detail.
pub open spec fn outcome_of(r: Result<String, TranslatorError>) -> Result<
    Seq<char>,
    (ErrorKind, Seq<char>),
> {
    match r {
        Ok(t) => Ok(t@),
        Err(e) => Err((e.kind(), e.detail())),
    }
}

/// Holds the endpoint configuration for the remote translation service,
/// resolved once at startup and immutable afterwards.
#[derive(Debug, PartialEq, Eq)]
pub struct Translator {
    pub api_url: String,
    pub api_key: Option<String>,
}

impl Translator {
    /// Creates a translator for the given endpoint configuration.
    pub fn new(api_url: String, api_key: Option<String>) -> (r: Translator)
        ensures
            r.api_url == api_url,
            r.api_key == api_key,
    {
        Translator { api_url, api_key }
    }

    /// Builds the one request of an invocation, attaching the configured
    /// credential.
    pub fn make_request(&self, text: String, pair: LanguagePair) -> (r: TranslationRequest)
        requires
            text@.len() > 0,
            pair.wf(),
        ensures
            r.text == text,
            r.pair == pair,
            r.credential == self.api_key,
            r.wf(),
    {
        let credential = match &self.api_key {
            None => None,
            Some(k) => Some(k.clone()),
        };
        TranslationRequest { text, pair, credential }
    }

    /// Interprets the remote service's answer: the HTTP status, and the
    /// body text where it could be read.
    pub fn interpret_response(status: u16, body: Option<String>) -> (r: Result<
        String,
        TranslatorError,
    >)
        ensures
            outcome_of(r) == interpret_spec(status, body.deep_view()),
    {
        if status < 200 || status >= 300 {
            let detail = match body {
                Some(b) => b,
                None => String::from_str("Unknown error"),
            };
            Err(TranslatorError::TranslationApiError(detail))
        } else {
            match body {
                None => Err(TranslatorError::ResponseParseError),
                Some(b) => match crate::json::extract_translated_text(b.as_str()) {
                    None => Err(TranslatorError::ResponseParseError),
                    Some(t) => Ok(t),
                },
            }
        }
    }
}

} // verus!
