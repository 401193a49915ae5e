use simple_translator::TranslatorError;
use simple_translator::language::LanguageCode;
use simple_translator::language::LanguagePair;
use simple_translator::language::classify_detection;
use simple_translator::language::detect_language;
use simple_translator::language::resolve_pair;

const ALL_CODES: [LanguageCode; 3] = [LanguageCode::En, LanguageCode::Ru, LanguageCode::De];

#[test]
fn test_explicit_pair_unchanged() {
    for &a in ALL_CODES.iter() {
        for &b in ALL_CODES.iter() {
            if a != b {
                let r = resolve_pair(a, Some(b));
                assert_eq!(r, Ok(LanguagePair { source: a, target: b }));
            }
        }
    }
}

#[test]
fn test_default_target_en_to_ru() {
    let r = resolve_pair(LanguageCode::En, None);
    assert_eq!(
        r,
        Ok(LanguagePair {
            source: LanguageCode::En,
            target: LanguageCode::Ru
        })
    );
}

#[test]
fn test_default_target_to_hub() {
    let r = resolve_pair(LanguageCode::Ru, None);
    assert_eq!(
        r,
        Ok(LanguagePair {
            source: LanguageCode::Ru,
            target: LanguageCode::En
        })
    );
    let r = resolve_pair(LanguageCode::De, None);
    assert_eq!(
        r,
        Ok(LanguagePair {
            source: LanguageCode::De,
            target: LanguageCode::En
        })
    );
}

#[test]
fn test_self_pair_rejected() {
    for &a in ALL_CODES.iter() {
        let r = resolve_pair(a, Some(a));
        assert_eq!(r, Err(TranslatorError::InvalidLanguagePair));
    }
}

#[test]
fn test_from_code() {
    assert_eq!(LanguageCode::from_code("en"), Some(LanguageCode::En));
    assert_eq!(LanguageCode::from_code("ru"), Some(LanguageCode::Ru));
    assert_eq!(LanguageCode::from_code("de"), Some(LanguageCode::De));
    assert_eq!(LanguageCode::from_code("fr"), None);
    assert_eq!(LanguageCode::from_code("EN"), None);
    assert_eq!(LanguageCode::from_code(""), None);
    assert_eq!(LanguageCode::from_code("eng"), None);
}

#[test]
fn test_code_strings() {
    assert_eq!(LanguageCode::En.code(), "en");
    assert_eq!(LanguageCode::Ru.code(), "ru");
    assert_eq!(LanguageCode::De.code(), "de");
}

#[test]
fn test_classify_detection() {
    assert_eq!(
        classify_detection(Some("eng".to_string())),
        Ok(LanguageCode::En)
    );
    assert_eq!(
        classify_detection(Some("rus".to_string())),
        Ok(LanguageCode::Ru)
    );
    assert_eq!(
        classify_detection(Some("deu".to_string())),
        Ok(LanguageCode::De)
    );
    assert_eq!(
        classify_detection(Some("fra".to_string())),
        Err(TranslatorError::DetectionFailed)
    );
    assert_eq!(
        classify_detection(None),
        Err(TranslatorError::DetectionFailed)
    );
}

#[test]
fn test_detect_language_english() {
    let text = "The quick brown fox jumps over the lazy dog. This is a longer English \
                sentence so that the language detector has enough material to work with, \
                and it should clearly come out as English.";
    assert_eq!(detect_language(text), Ok(LanguageCode::En));
}

#[test]
fn test_detect_language_russian() {
    let text = "Быстрая коричневая лиса перепрыгивает через ленивую собаку. Это более \
                длинное предложение на русском языке, чтобы у детектора было достаточно \
                материала для работы.";
    assert_eq!(detect_language(text), Ok(LanguageCode::Ru));
}

#[test]
fn test_detect_language_german() {
    let text = "Der schnelle braune Fuchs springt über den faulen Hund. Dies ist ein \
                längerer deutscher Satz, damit der Spracherkenner genügend Material zum \
                Arbeiten hat und die Sprache eindeutig als Deutsch erkannt wird.";
    assert_eq!(detect_language(text), Ok(LanguageCode::De));
}

#[test]
fn test_detect_language_empty_fails() {
    assert_eq!(detect_language(""), Err(TranslatorError::DetectionFailed));
}
