//! The Linux engines: `espeak-ng`, else `spd-say` (speech-dispatcher).
use vstd::prelude::*;
use crate::language::Language;
use crate::text::views;
use super::TtsError;

verus! {

/// Speech through `espeak-ng` or speech-dispatcher.
pub struct LinuxTts;

/// The Linux speech command that is used.
#[derive(Debug, Clone, Copy, PartialEq, Eq, Structural)]
pub enum LinuxBackend {
    Espeak,
    SpdSay,
}

impl LinuxTts {
    /// The command used: `espeak-ng` when installed, else `spd-say`; an error when neither is.
    pub fn backend(espeak_installed: bool, spd_say_installed: bool) -> (res: Result<LinuxBackend, TtsError>)
        ensures
            espeak_installed ==> res == Ok::<LinuxBackend, TtsError>(LinuxBackend::Espeak),
            !espeak_installed && spd_say_installed ==> res == Ok::<LinuxBackend, TtsError>(LinuxBackend::SpdSay),
            !espeak_installed && !spd_say_installed ==> (res matches Err(
                TtsError::CommandFailed { engine: e, status: s, stderr: m },
            ) && e@ == "Linux TTS"@ && s@ == "exit status: 127"@ && m@ == "install espeak-ng or speech-dispatcher"@),
    {
        if espeak_installed {
            Ok(LinuxBackend::Espeak)
        } else if spd_say_installed {
            Ok(LinuxBackend::SpdSay)
        } else {
            Err(TtsError::CommandFailed {
                engine: String::from_str("Linux TTS"),
                status: String::from_str("exit status: 127"),
                stderr: String::from_str("install espeak-ng or speech-dispatcher"),
            })
        }
    }

    /// The `espeak-ng` voice: `SPEEKR_VOICE` when set, else the language's voice.
    pub fn espeak_voice_for(configured: Option<String>, language: Language) -> (res: String)
        ensures
            res@ == (match configured {
                Some(v) => v@,
                None => match language {
                    Language::English => "en"@,
                    Language::Vietnamese => "vi"@,
                },
            }),
    {
        match configured {
            Some(v) => v,
            None => String::from_str(language.espeak_voice()),
        }
    }

    /// Arguments of `espeak-ng` that speak standard input with `voice`.
    pub fn espeak_arguments(voice: &str) -> (res: Vec<String>)
        ensures
            views(res@) == seq!["-v"@, voice@, "--stdin"@],
    {
        let res = vec![String::from_str("-v"), String::from_str(voice), String::from_str("--stdin")];
        assert(views(res@) =~= seq!["-v"@, voice@, "--stdin"@]);
        res
    }

    /// The shell line that succeeds when `command` is installed.
    pub fn command_probe(command: &str) -> (res: String)
        ensures
            res@ == "command -v "@ + command@ + " >/dev/null 2>&1"@,
    {
        let mut s = String::from_str("command -v ");
        s.append(command);
        s.append(" >/dev/null 2>&1");
        s
    }
}

} // verus!
