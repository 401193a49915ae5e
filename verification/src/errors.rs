use vstd::prelude::*;

verus! {

/// The stage of the pipeline that a failure belongs to, without any
/// diagnostic payload.  Spec-level reasoning about outcomes goes through
/// this kind, so that an outcome can be written down even where the
/// corresponding error value carries a `String`.
#[derive(Clone, Copy, Debug, PartialEq, Eq, Structural)]
pub enum ErrorKind {
    DetectionFailed,
    InvalidLanguagePair,
    RequestSendError,
    TranslationApiError,
    ResponseParseError,
}

/// One terminal failure of the translation pipeline.  Every failure is
/// final for the invocation that produced it: nothing is retried.
#[derive(Debug, PartialEq, Eq)]
pub enum TranslatorError {
    /// The detection capability produced no confident result, or a
    /// language outside the supported set.
    DetectionFailed,
    /// The resolved source equals the resolved target, or an explicit
    /// override code is outside the supported set.
    InvalidLanguagePair,
    /// A transport-level failure kept the request from reaching the
    /// remote translation service.
    RequestSendError,
    /// The remote service answered with a non-success status; the field
    /// holds the response body verbatim as diagnostic detail.
    TranslationApiError(String),
    /// The remote service answered success, but the body did not have
    /// the expected shape.
    ResponseParseError,
}

impl TranslatorError {
    /// The kind of this error, with any diagnostic payload stripped.
    pub open spec fn kind(self) -> ErrorKind {
        match self {
            TranslatorError::DetectionFailed => ErrorKind::DetectionFailed,
            TranslatorError::InvalidLanguagePair => ErrorKind::InvalidLanguagePair,
            TranslatorError::RequestSendError => ErrorKind::RequestSendError,
            TranslatorError::TranslationApiError(_) => ErrorKind::TranslationApiError,
            TranslatorError::ResponseParseError => ErrorKind::ResponseParseError,
        }
    }

    /// The diagnostic detail carried by this error: the remote service's
    /// response body for an API error, empty for every other kind.
    pub open spec fn detail(self) -> Seq<char> {
        match self {
            TranslatorError::TranslationApiError(body) => body@,
            _ => Seq::<char>::empty(),
        }
    }

    pub open spec fn message_spec(self) -> Seq<char> {
        match self {
            TranslatorError::DetectionFailed => "Language detection failed. Text might be too short, ambiguous, or in an unsupported language."@,
            TranslatorError::InvalidLanguagePair => "Invalid language pair: source and target must be distinct supported codes."@,
            TranslatorError::RequestSendError => "Failed to send request to the translation API."@,
            TranslatorError::TranslationApiError(body) => "Translation API request failed: "@ + body@,
            TranslatorError::ResponseParseError => "Failed to parse translation response."@,
        }
    }

    /// A single human-readable diagnostic line for this failure.
    pub fn message(&self) -> (r: String)
        ensures
            r@ == self.message_spec(),
    {
        match self {
            TranslatorError::DetectionFailed => String::from_str("Language detection failed. Text might be too short, ambiguous, or in an unsupported language."),
            TranslatorError::InvalidLanguagePair => String::from_str("Invalid language pair: source and target must be distinct supported codes."),
            TranslatorError::RequestSendError => String::from_str("Failed to send request to the translation API."),
            TranslatorError::TranslationApiError(body) => String::from_str("Translation API request failed: ").concat(body.as_str()),
            TranslatorError::ResponseParseError => String::from_str("Failed to parse translation response."),
        }
    }
}

} // verus!
