use speekr::language::{resolve_language, Gender, Language, LanguageMode};

#[test]
fn detect_plain_english_text() {
    assert_eq!(Language::detect("Hello there, how are you?"), Language::English);
}

#[test]
fn detect_vietnamese_sentence() {
    assert_eq!(Language::detect("Xin chào, bạn có khỏe không?"), Language::Vietnamese);
}

#[test]
fn detect_text_without_letters_is_english() {
    assert_eq!(Language::detect(""), Language::English);
    assert_eq!(Language::detect("12345 !!! ..."), Language::English);
}

#[test]
fn detect_one_vietnamese_letter_is_enough() {
    assert_eq!(Language::detect("I visited Huế last summer"), Language::Vietnamese);
    assert_eq!(Language::detect("abcdefghijklmnopqrstuvwxyzđ"), Language::Vietnamese);
    assert_eq!(Language::detect("cafe resume naive"), Language::English);
}

#[test]
fn detect_ignores_order_and_joining() {
    let a = "hello ";
    let b = "Đà Nẵng";
    assert_eq!(Language::detect(&format!("{a}{b}")), Language::detect(&format!("{b}{a}")));
    assert_eq!(Language::detect(&format!("{a}{a}")), Language::English);
    assert_eq!(Language::detect(&format!("{a}{b}")), Language::Vietnamese);
}

#[test]
fn detect_uppercase_vietnamese_letters_count() {
    assert_eq!(Language::detect("ĐƯỜNG"), Language::Vietnamese);
}

#[test]
fn resolve_language_follows_mode() {
    assert_eq!(resolve_language(LanguageMode::English, "Xin chào bạn"), Language::English);
    assert_eq!(resolve_language(LanguageMode::Vietnamese, "hello"), Language::Vietnamese);
    assert_eq!(resolve_language(LanguageMode::Auto, "Xin chào bạn"), Language::Vietnamese);
    assert_eq!(resolve_language(LanguageMode::Auto, "hello"), Language::English);
}

#[test]
fn voice_tables() {
    assert_eq!(Language::English.windows_culture(), "en-US");
    assert_eq!(Language::Vietnamese.windows_culture(), "vi-VN");
    assert_eq!(Language::English.windows_voice_hint(Gender::Female), "Zira");
    assert_eq!(Language::English.windows_voice_hint(Gender::Male), "David");
    assert_eq!(Language::Vietnamese.windows_voice_hint(Gender::Male), "");
    assert_eq!(Language::English.macos_voice(), Some("Samantha"));
    assert_eq!(Language::Vietnamese.macos_voice(), None);
    assert_eq!(Language::English.espeak_voice(), "en");
    assert_eq!(Language::Vietnamese.espeak_voice(), "vi");
}

#[test]
fn edge_tts_voices_match_readme() {
    assert_eq!(Language::English.edge_tts_voice(Gender::Female), "en-US-JennyNeural");
    assert_eq!(Language::English.edge_tts_voice(Gender::Male), "en-US-GuyNeural");
    assert_eq!(Language::Vietnamese.edge_tts_voice(Gender::Female), "vi-VN-HoaiMyNeural");
    assert_eq!(Language::Vietnamese.edge_tts_voice(Gender::Male), "vi-VN-NamMinhNeural");
}

#[test]
fn edge_voices_begin_with_culture() {
    for language in [Language::English, Language::Vietnamese] {
        for gender in [Gender::Female, Gender::Male] {
            assert!(language.edge_tts_voice(gender).starts_with(language.windows_culture()));
        }
    }
}

