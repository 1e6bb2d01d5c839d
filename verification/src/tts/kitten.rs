//! The KittenTTS engine: an experimental command that writes a WAV file.
use vstd::prelude::*;
use crate::text::{has_prefix, has_suffix, trimmed, utf8_lossy};
use crate::text::views;
use super::{temp_name, TtsError};

verus! {

/// Speech through the `kittentts` command.
pub struct KittenTts;

impl KittenTts {
    /// Name of the temporary WAV file of request `id`.
    pub fn temp_file_name(id: u128) -> (res: String)
        ensures
            res@ == temp_name("speekr-kitten-"@, id as nat, ".wav"@),
    {
        super::temp_file_name("speekr-kitten-", id, ".wav")
    }

    /// Whether a file name is one of this engine's temporary WAV files, which
    /// alone may be removed.
    pub fn is_own_temp_file(name: &str) -> (res: bool)
        ensures
            res == (has_prefix(name@, "speekr-kitten-"@) && has_suffix(name@, ".wav"@)),
    {
        super::named_like(name, "speekr-kitten-", ".wav")
    }

    /// The command to run: `SPEEKR_KITTEN_BIN` when set, else `kittentts`.
    pub fn command_name(configured: Option<String>) -> (res: String)
        ensures
            res@ == (match configured {
                Some(v) => v@,
                None => "kittentts"@,
            }),
    {
        super::env_or(configured, "kittentts")
    }

    /// Arguments that synthesise `text` in English into `wav_path`.
    pub fn arguments(text: &str, wav_path: &str) -> (res: Vec<String>)
        ensures
            views(res@) == seq!["--text"@, text@, "--lang"@, "en"@, "--output"@, wav_path@],
    {
        let res = vec![
            String::from_str("--text"),
            String::from_str(text),
            String::from_str("--lang"),
            String::from_str("en"),
            String::from_str("--output"),
            String::from_str(wav_path),
        ];
        assert(views(res@) =~= seq!["--text"@, text@, "--lang"@, "en"@, "--output"@, wav_path@]);
        res
    }

    /// The outcome of a finished synthesis: a failed command is an error with
    /// its output; a successful one that left no WAV file is an error too.
    pub fn synthesis_outcome(success: bool, status: String, stderr: &[u8], wav_exists: bool) -> (res: Result<
        (),
        TtsError,
    >)
        ensures
            !success ==> (res matches Err(TtsError::CommandFailed { engine: e, status: s, stderr: m }) && e@
                == "KittenTTS"@ && s@ == status@ && m@ == trimmed(utf8_lossy(stderr@))),
            success && !wav_exists ==> (res matches Err(TtsError::CommandFailed { engine: e, status: s, stderr: m })
                && e@ == "KittenTTS"@ && s@ == status@ && m@
                == "kitten command returned success but did not create wav output"@),
            success && wav_exists ==> res is Ok,
    {
        if !success {
            Err(super::command_failure("KittenTTS", status, stderr))
        } else if !wav_exists {
            Err(TtsError::CommandFailed {
                engine: String::from_str("KittenTTS"),
                status,
                stderr: String::from_str("kitten command returned success but did not create wav output"),
            })
        } else {
            Ok(())
        }
    }
}

/// Every temporary file that KittenTTS names is one that its cleanup removes.
pub proof fn law_kitten_cleans_its_own_files(id: nat)
    ensures
        has_prefix(temp_name("speekr-kitten-"@, id, ".wav"@), "speekr-kitten-"@),
        has_suffix(temp_name("speekr-kitten-"@, id, ".wav"@), ".wav"@),
{
    super::lemma_temp_name_shape("speekr-kitten-"@, id, ".wav"@);
}

} // verus!
