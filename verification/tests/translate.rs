use speekr::translate::{argos_arguments, argos_outcome, launch_failure, unchanged_translation, TranslateError};

#[test]
fn same_language_needs_no_command() {
    assert_eq!(unchanged_translation("hello", "en", "en"), Some("hello".to_owned()));
    assert_eq!(unchanged_translation("hello", "en", "vi"), None);
}

#[test]
fn argos_command_line() {
    assert_eq!(argos_arguments("hello", "en", "vi"), vec!["--from", "en", "--to", "vi", "hello"]);
}

#[test]
fn argos_outcomes() {
    assert_eq!(argos_outcome(true, b"  xin chao\n", b"", "exit status: 0".to_owned()), Ok("xin chao".to_owned()));
    assert_eq!(argos_outcome(false, b"", b" model missing \n", "exit status: 1".to_owned()),
        Err(TranslateError::Command("model missing".to_owned())));
    assert_eq!(argos_outcome(false, b"", b"  ", "exit status: 2".to_owned()),
        Err(TranslateError::Command("exit status: 2".to_owned())));
}

#[test]
fn argos_output_is_decoded_lossily() {
    assert_eq!(argos_outcome(true, b"ch\xc3\xa0o \xff", b"", String::new()), Ok("chào \u{fffd}".to_owned()));
}

#[test]
fn launch_failures() {
    assert_eq!(launch_failure(true, "No such file".to_owned()), TranslateError::MissingArgos);
    assert_eq!(launch_failure(false, "denied".to_owned()), TranslateError::Io("denied".to_owned()));
}

#[test]
fn translate_error_messages() {
    assert_eq!(TranslateError::MissingArgos.message(), "argos-translate is not installed or not on PATH");
    assert_eq!(TranslateError::Command("x".to_owned()).message(), "translation command failed: x");
    assert_eq!(TranslateError::Io("y".to_owned()).message(), "I/O error: y");
}

#[test]
fn translation_source_follows_detection() {
    assert_eq!(speekr::translate::translation_source("Hello world"), "en");
    assert_eq!(speekr::translate::translation_source("Xin chào thế giới"), "vi");
    assert_eq!(speekr::translate::translation_source(""), "en");
}
