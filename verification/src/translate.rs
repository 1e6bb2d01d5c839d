//! Translation with the `argos-translate` command: what is handed to the
//! command, and how its exit and output become the translation or an error.
use vstd::prelude::*;
use crate::language::{detected_language, Language};
use crate::text::{from_utf8_lossy, trim, trimmed, utf8_lossy, views};

verus! {

/// Why a translation failed.
#[derive(Debug, Clone, PartialEq, Eq)]
pub enum TranslateError {
    /// The `argos-translate` command is not installed.
    MissingArgos,
    /// The command ran and failed, with its error output or exit status.
    Command(String),
    /// The command could not be run, with the reason.
    Io(String),
}

/// The message of a translation error.
pub open spec fn translate_error_message(e: TranslateError) -> Seq<char> {
    match e {
        TranslateError::MissingArgos => "argos-translate is not installed or not on PATH"@,
        TranslateError::Command(m) => "translation command failed: "@ + m@,
        TranslateError::Io(m) => "I/O error: "@ + m@,
    }
}

impl TranslateError {
    /// The message shown for this error.
    pub fn message(&self) -> (res: String)
        ensures
            res@ == translate_error_message(*self),
    {
        match self {
            TranslateError::MissingArgos => String::from_str("argos-translate is not installed or not on PATH"),
            TranslateError::Command(m) => {
                let mut s = String::from_str("translation command failed: ");
                s.append(m.as_str());
                s
            },
            TranslateError::Io(m) => {
                let mut s = String::from_str("I/O error: ");
                s.append(m.as_str());
                s
            },
        }
    }
}

/// The language code of the detected language of a text.
pub open spec fn source_code(s: Seq<char>) -> Seq<char> {
    match detected_language(s) {
        Language::English => "en"@,
        Language::Vietnamese => "vi"@,
    }
}

/// The language to translate a selection from: the one detected in it, as the
/// code that `argos-translate` takes.
pub fn translation_source(text: &str) -> (res: &'static str)
    ensures
        res@ == source_code(text@),
{
    match Language::detect(text) {
        Language::English => "en",
        Language::Vietnamese => "vi",
    }
}

/// The translation when nothing needs translating: the text itself when the two
/// languages are the same, none otherwise (then the command is run).
pub fn unchanged_translation(text: &str, from: &str, to: &str) -> (res: Option<String>)
    ensures
        from@ == to@ ==> (res matches Some(t) && t@ == text@),
        from@ != to@ ==> res is None,
{
    if crate::text::same_text(from, to) {
        Some(String::from_str(text))
    } else {
        None
    }
}

/// The arguments of `argos-translate` for a translation.
pub fn argos_arguments(text: &str, from: &str, to: &str) -> (res: Vec<String>)
    ensures
        views(res@) == seq!["--from"@, from@, "--to"@, to@, text@],
{
    let res = vec![
        String::from_str("--from"),
        String::from_str(from),
        String::from_str("--to"),
        String::from_str(to),
        String::from_str(text),
    ];
    assert(views(res@) =~= seq!["--from"@, from@, "--to"@, to@, text@]);
    res
}

/// The error when `argos-translate` could not be run: a missing command, or
/// another I/O failure with its message.
pub fn launch_failure(not_found: bool, message: String) -> (res: TranslateError)
    ensures
        not_found ==> res == TranslateError::MissingArgos,
        !not_found ==> res == TranslateError::Io(message),
{
    if not_found {
        TranslateError::MissingArgos
    } else {
        TranslateError::Io(message)
    }
}

/// The outcome of a finished `argos-translate` run: the trimmed output on
/// success; otherwise a command error with the trimmed error output, or with
/// the exit status when that output is blank.
pub fn argos_outcome(success: bool, stdout: &[u8], stderr: &[u8], status: String) -> (res: Result<
    String,
    TranslateError,
>)
    ensures
        success ==> (res matches Ok(t) && t@ == trimmed(utf8_lossy(stdout@))),
        !success ==> (res matches Err(TranslateError::Command(m)) && m@ == (if trimmed(utf8_lossy(stderr@)).len() == 0 {
            status@
        } else {
            trimmed(utf8_lossy(stderr@))
        })),
{
    if success {
        let out = from_utf8_lossy(stdout);
        Ok(trim(out.as_str()))
    } else {
        let err = from_utf8_lossy(stderr);
        let err = trim(err.as_str());
        if err.as_str().unicode_len() == 0 {
            Err(TranslateError::Command(status))
        } else {
            Err(TranslateError::Command(err))
        }
    }
}

} // verus!
