//! The edge-tts engine: Microsoft Neural voices through the Python `edge-tts` package.
use vstd::prelude::*;
use crate::language::{edge_voice_name, Gender, Language};
use crate::text::decimal;
use crate::text::views;

verus! {

/// Speech through the Python `edge-tts` package, played back as MP3.
pub struct EdgeTts;

/// Inline Python: reads text from stdin (UTF-8), synthesises with edge-tts, saves MP3 to argv[2].
pub const SYNTH_SCRIPT: &'static str = "import sys,asyncio,edge_tts,io;sys.stdin=io.TextIOWrapper(sys.stdin.buffer,encoding='utf-8');asyncio.run(edge_tts.Communicate(sys.stdin.read().strip(),sys.argv[1]).save(sys.argv[2]))";

impl EdgeTts {
    /// Name of the temporary MP3 file of request `id`.
    pub fn temp_file_name(id: u128) -> (res: String)
        ensures
            res@ == "speekr-edge-"@ + decimal(id as nat) + ".mp3"@,
    {
        super::temp_file_name("speekr-edge-", id, ".mp3")
    }

    /// Arguments of `python` that synthesise the speech into `mp3_path`.
    pub fn synth_arguments(language: Language, gender: Gender, mp3_path: &str) -> (res: Vec<String>)
        ensures
            views(res@) == seq!["-c"@, SYNTH_SCRIPT@, edge_voice_name(language, gender), mp3_path@],
    {
        let voice = language.edge_tts_voice(gender);
        let res = vec![
            String::from_str("-c"),
            String::from_str(SYNTH_SCRIPT),
            String::from_str(voice),
            String::from_str(mp3_path),
        ];
        assert(views(res@) =~= seq!["-c"@, SYNTH_SCRIPT@, edge_voice_name(language, gender), mp3_path@]);
        res
    }
}

} // verus!
