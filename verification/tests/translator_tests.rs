use simple_translator::TranslatorError;
use simple_translator::Translator;
use simple_translator::language::LanguageCode;
use simple_translator::language::LanguagePair;

fn pair_en_ru() -> LanguagePair {
    LanguagePair {
        source: LanguageCode::En,
        target: LanguageCode::Ru,
    }
}

#[test]
fn test_translation_success() {
    let body = "{\"translatedText\": \"Привет\"}".to_string();
    let r = Translator::interpret_response(200, Some(body));
    assert_eq!(r, Ok("Привет".to_string()));
}

#[test]
fn test_translation_success_ascii() {
    let body = "{\"translatedText\":\"hello there\"}".to_string();
    let r = Translator::interpret_response(204, Some(body));
    assert_eq!(r, Ok("hello there".to_string()));
}

#[test]
fn test_api_error_carries_body_verbatim() {
    let r = Translator::interpret_response(500, Some("server overloaded".to_string()));
    match r {
        Err(TranslatorError::TranslationApiError(detail)) => {
            assert_eq!(detail, "server overloaded");
        }
        other => panic!("expected TranslationApiError, got {:?}", other),
    }
}

#[test]
fn test_api_error_message_contains_body() {
    let r = Translator::interpret_response(500, Some("server overloaded".to_string()));
    let e = r.unwrap_err();
    let msg = e.message();
    assert!(msg.contains("server overloaded"));
}

#[test]
fn test_api_error_unreadable_body() {
    let r = Translator::interpret_response(502, None);
    assert_eq!(
        r,
        Err(TranslatorError::TranslationApiError(
            "Unknown error".to_string()
        ))
    );
}

#[test]
fn test_missing_field_is_parse_error() {
    let body = "{\"someOtherField\": \"x\"}".to_string();
    let r = Translator::interpret_response(200, Some(body));
    assert_eq!(r, Err(TranslatorError::ResponseParseError));
}

#[test]
fn test_malformed_body_is_parse_error() {
    let r = Translator::interpret_response(200, Some("not json at all".to_string()));
    assert_eq!(r, Err(TranslatorError::ResponseParseError));
    let r = Translator::interpret_response(200, Some("".to_string()));
    assert_eq!(r, Err(TranslatorError::ResponseParseError));
    let r = Translator::interpret_response(200, Some("{\"translatedText\": 5}".to_string()));
    assert_eq!(r, Err(TranslatorError::ResponseParseError));
}

#[test]
fn test_unreadable_body_on_success_is_parse_error() {
    let r = Translator::interpret_response(200, None);
    assert_eq!(r, Err(TranslatorError::ResponseParseError));
}

#[test]
fn test_escapes_are_decoded() {
    let body = "{\"translatedText\":\"a\\u0041\\n\\\"b\\\\c\\/d\"}".to_string();
    let r = Translator::interpret_response(200, Some(body));
    assert_eq!(r, Ok("aA\n\"b\\c/d".to_string()));
}

#[test]
fn test_surrogate_pair_is_combined() {
    let body = "{\"translatedText\":\"\\ud83d\\ude00\"}".to_string();
    let r = Translator::interpret_response(200, Some(body));
    assert_eq!(r, Ok("\u{1F600}".to_string()));
}

#[test]
fn test_lone_surrogate_is_rejected() {
    let body = "{\"translatedText\":\"\\ud83d\"}".to_string();
    let r = Translator::interpret_response(200, Some(body));
    assert_eq!(r, Err(TranslatorError::ResponseParseError));
}

#[test]
fn test_whitespace_around_members_is_tolerated() {
    let body = "  {\n  \"translatedText\" :\t\"hi\"  }\r\n".to_string();
    let r = Translator::interpret_response(200, Some(body));
    assert_eq!(r, Ok("hi".to_string()));
}

#[test]
fn test_trailing_garbage_is_rejected() {
    let body = "{\"translatedText\":\"hi\"} x".to_string();
    let r = Translator::interpret_response(200, Some(body));
    assert_eq!(r, Err(TranslatorError::ResponseParseError));
}

#[test]
fn test_payload_without_credential() {
    let t = Translator::new("http://localhost:5000/translate".to_string(), None);
    let req = t.make_request("Hello".to_string(), pair_en_ru());
    assert_eq!(
        req.to_json(),
        "{\"q\":\"Hello\",\"source\":\"en\",\"target\":\"ru\"}"
    );
}

#[test]
fn test_payload_with_credential() {
    let t = Translator::new(
        "http://localhost:5000/translate".to_string(),
        Some("SECRET-REDACTED".to_string()),
    );
    let req = t.make_request("Hello".to_string(), pair_en_ru());
    assert_eq!(
        req.to_json(),
        "{\"q\":\"Hello\",\"source\":\"en\",\"target\":\"ru\",\"api_key\":\"SECRET-REDACTED\"}"
    );
}

#[test]
fn test_payload_escapes_text() {
    let t = Translator::new("http://localhost:5000/translate".to_string(), None);
    let req = t.make_request("a\"b\\c\nd\te\u{1}f".to_string(), pair_en_ru());
    assert_eq!(
        req.to_json(),
        "{\"q\":\"a\\\"b\\\\c\\nd\\te\\u0001f\",\"source\":\"en\",\"target\":\"ru\"}"
    );
}

#[test]
fn test_error_messages() {
    assert!(
        TranslatorError::DetectionFailed
            .message()
            .contains("detection failed")
    );
    assert!(
        TranslatorError::InvalidLanguagePair
            .message()
            .contains("Invalid language pair")
    );
    assert!(
        TranslatorError::RequestSendError
            .message()
            .contains("Failed to send request")
    );
    assert!(
        TranslatorError::ResponseParseError
            .message()
            .contains("Failed to parse")
    );
}
