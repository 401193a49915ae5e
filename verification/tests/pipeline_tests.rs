use simple_translator::FileHandler;
use simple_translator::Translator;
use simple_translator::TranslatorError;
use simple_translator::language::LanguageCode;
use simple_translator::language::LanguagePair;
use simple_translator::resolve_request;

const ENGLISH_TEXT: &str = "The translation pipeline reads a document, determines its \
    language, resolves the pair of languages to translate between, and then asks a remote \
    service for the translated text. This paragraph is plainly written in English.";

#[test]
fn test_explicit_overrides_are_used() {
    let r = resolve_request("anything", Some("en"), Some("de"));
    assert_eq!(
        r,
        Ok(LanguagePair {
            source: LanguageCode::En,
            target: LanguageCode::De
        })
    );
}

#[test]
fn test_unsupported_override_is_invalid_pair() {
    let r = resolve_request(ENGLISH_TEXT, Some("xx"), None);
    assert_eq!(r, Err(TranslatorError::InvalidLanguagePair));
    let r = resolve_request(ENGLISH_TEXT, None, Some("xx"));
    assert_eq!(r, Err(TranslatorError::InvalidLanguagePair));
}

#[test]
fn test_equal_overrides_are_invalid_pair() {
    let r = resolve_request(ENGLISH_TEXT, Some("de"), Some("de"));
    assert_eq!(r, Err(TranslatorError::InvalidLanguagePair));
}

#[test]
fn test_detected_english_defaults_to_russian() {
    let r = resolve_request(ENGLISH_TEXT, None, None);
    assert_eq!(
        r,
        Ok(LanguagePair {
            source: LanguageCode::En,
            target: LanguageCode::Ru
        })
    );
}

#[test]
fn test_english_markdown_document_decisions() {
    // A markdown document of roughly five hundred words, no explicit
    // languages: the source must be detected as English, the target must
    // default to Russian, the output name must carry the target code,
    // and a successful answer must surface Cyrillic content unchanged.
    let doc = format!("# A document\n\n{}\n", vec![ENGLISH_TEXT; 15].join(" "));
    assert!(doc.split_whitespace().count() >= 500);
    let pair = resolve_request(&doc, None, None).unwrap();
    assert_eq!(pair.source, LanguageCode::En);
    assert_eq!(pair.target, LanguageCode::Ru);
    let handler = FileHandler::new("test/test_eng_500.md".to_string());
    assert_eq!(
        handler.translated_file_name(pair.target.code()),
        Some("test/test_eng_500_ru_translated.md".to_string())
    );
    let body = "{\"translatedText\": \"Привет, мир\"}".to_string();
    let translated = Translator::interpret_response(200, Some(body)).unwrap();
    assert!(!translated.is_empty());
    assert!(translated.chars().any(|c| ('\u{0400}'..='\u{04FF}').contains(&c)));
}

#[test]
fn test_pipeline_idempotent() {
    let mocked_body = "{\"translatedText\": \"Привет, мир\"}";
    let mut outputs: Vec<(Option<String>, Result<String, TranslatorError>)> = Vec::new();
    for _ in 0..2 {
        let pair = resolve_request(ENGLISH_TEXT, None, None).unwrap();
        let translator = Translator::new("http://localhost:5000/translate".to_string(), None);
        let request = translator.make_request(ENGLISH_TEXT.to_string(), pair);
        let _payload = request.to_json();
        let result = Translator::interpret_response(200, Some(mocked_body.to_string()));
        let handler = FileHandler::new("docs/input.md".to_string());
        let out_name = handler.translated_file_name(pair.target.code());
        outputs.push((out_name, result));
    }
    assert_eq!(outputs[0], outputs[1]);
    assert_eq!(outputs[0].1, Ok("Привет, мир".to_string()));
    assert_eq!(outputs[0].0, Some("docs/input_ru_translated.md".to_string()));
}
