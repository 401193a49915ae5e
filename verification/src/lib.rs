pub mod errors;
pub mod file_handler;
pub mod json;
pub mod language;
pub mod pipeline;
pub mod translator;
pub mod util;

pub use errors::ErrorKind;
pub use errors::TranslatorError;
pub use file_handler::FileHandler;
pub use language::LanguageCode;
pub use language::LanguagePair;
pub use language::detect_language;
pub use pipeline::resolve_request;
pub use translator::TranslationRequest;
pub use translator::Translator;
