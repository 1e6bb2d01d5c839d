//! Text-to-speech: the text that is spoken, the errors of the speech engines,
//! the temporary files they use, and the decisions of their wait loops.
use vstd::prelude::*;
use crate::text::{decimal, from_utf8_lossy, has_prefix, has_suffix, push_decimal, trim, trimmed, utf8_lossy};

pub mod edgetts;
pub mod kitten;
pub mod linux;
pub mod macos;
pub mod piper;
pub mod windows;

verus! {

/// Why speaking failed.
#[derive(Debug, Clone, PartialEq, Eq)]
pub enum TtsError {
    /// The text holds nothing but whitespace.
    EmptyText,
    /// A command or a file could not be used, with the reason.
    Io(String),
    /// A speech command ran and failed.
    CommandFailed { engine: String, status: String, stderr: String },
    /// The audio could not be played, with the reason.
    Audio(String),
    /// No speech engine exists for this system.
    UnsupportedOs,
}

/// The message of a speech error.
pub open spec fn tts_error_message(e: TtsError) -> Seq<char> {
    match e {
        TtsError::EmptyText => "text is empty"@,
        TtsError::Io(m) => "I/O error: "@ + m@,
        TtsError::CommandFailed { engine, status, stderr } => engine@ + " exited with "@ + status@ + ": "@
            + stderr@,
        TtsError::Audio(m) => "audio playback error: "@ + m@,
        TtsError::UnsupportedOs => "TTS is not implemented for this OS"@,
    }
}

impl TtsError {
    /// The message shown for this error.
    pub fn message(&self) -> (res: String)
        ensures
            res@ == tts_error_message(*self),
    {
        match self {
            TtsError::EmptyText => String::from_str("text is empty"),
            TtsError::Io(m) => {
                let mut s = String::from_str("I/O error: ");
                s.append(m.as_str());
                s
            },
            TtsError::CommandFailed { engine, status, stderr } => {
                let mut s = String::from_str(engine.as_str());
                s.append(" exited with ");
                s.append(status.as_str());
                s.append(": ");
                s.append(stderr.as_str());
                s
            },
            TtsError::Audio(m) => {
                let mut s = String::from_str("audio playback error: ");
                s.append(m.as_str());
                s
            },
            TtsError::UnsupportedOs => String::from_str("TTS is not implemented for this OS"),
        }
    }
}

/// The text that is spoken: the request trimmed; an error when nothing is left.
pub fn speech_text(text: &str) -> (res: Result<String, TtsError>)
    ensures
        trimmed(text@).len() == 0 ==> res == Err::<String, TtsError>(TtsError::EmptyText),
        trimmed(text@).len() > 0 ==> (res matches Ok(t) && t@ == trimmed(text@)),
{
    let t = trim(text);
    if t.as_str().unicode_len() == 0 {
        Err(TtsError::EmptyText)
    } else {
        Ok(t)
    }
}

/// A speech engine to try.
#[derive(Debug)]
pub enum SpeechEngine {
    /// Piper with the voice model at this path.
    Piper(String),
    /// Microsoft Neural voices through edge-tts.
    EdgeTts,
    /// The system's own speech engine.
    Platform,
}

/// The engines to try, in order, until one succeeds; the last one's outcome
/// stands when all fail. Piper comes first when a voice model is configured,
/// then the neural edge-tts voices, then the system's engine.
pub fn speech_engines(piper_model: Option<String>) -> (res: Vec<SpeechEngine>)
    ensures
        res@.len() == (if piper_model is Some { 3int } else { 2int }),
        match piper_model {
            Some(m) => res@[0] matches SpeechEngine::Piper(p) && p@ == m@,
            None => true,
        },
        res@[res@.len() - 2] is EdgeTts,
        res@[res@.len() - 1] is Platform,
{
    let mut res: Vec<SpeechEngine> = Vec::new();
    match piper_model {
        Some(m) => res.push(SpeechEngine::Piper(m)),
        None => {},
    }
    res.push(SpeechEngine::EdgeTts);
    res.push(SpeechEngine::Platform);
    res
}

/// What the speaking loop does after one engine has been tried.
#[derive(Debug)]
pub enum AttemptStep {
    /// Speaking is over, with this outcome.
    Done(Result<(), TtsError>),
    /// The engine failed and another one follows: report this error and try the next.
    TryNext(TtsError),
}

/// The step after an engine's attempt: a success ends speaking; a failure moves
/// on to the next engine, unless this engine was the last, whose error stands.
pub fn attempt_step(result: Result<(), TtsError>, is_last: bool) -> (res: AttemptStep)
    ensures
        result is Ok ==> res == AttemptStep::Done(result),
        result is Err && is_last ==> res == AttemptStep::Done(result),
        result matches Err(e) ==> (!is_last ==> res == AttemptStep::TryNext(e)),
{
    match result {
        Err(e) if !is_last => AttemptStep::TryNext(e),
        outcome => AttemptStep::Done(outcome),
    }
}

/// The outcome of speaking with engines whose attempts give `results`, in
/// order: the first success, else the error of the last engine.
pub open spec fn fallback_outcome(results: Seq<Result<(), TtsError>>) -> Result<(), TtsError>
    recommends
        results.len() > 0,
    decreases results.len(),
{
    if results.len() <= 1 || results[0] is Ok {
        results[0]
    } else {
        fallback_outcome(results.drop_first())
    }
}

/// Taking `attempt_step` engine after engine ends at the first success, or at
/// the last engine with its error: the outcome is `fallback_outcome`.
pub proof fn law_attempt_steps_give_fallback_outcome(results: Seq<Result<(), TtsError>>, i: int)
    requires
        0 <= i < results.len(),
        forall|j: int| 0 <= j < i ==> results[j] is Err,
    ensures
        results[i] is Ok || i == results.len() - 1 ==> results[i] == fallback_outcome(results),
    decreases i,
{
    if i > 0 {
        let rest = results.drop_first();
        assert forall|j: int| 0 <= j < i - 1 implies rest[j] is Err by {
            assert(rest[j] == results[j + 1]);
        }
        law_attempt_steps_give_fallback_outcome(rest, i - 1);
        assert(rest[i - 1] == results[i]);
    }
}

/// Whether an engine gives up before it starts: when stop was already asked,
/// speaking ends at once, successfully; otherwise the engine goes on.
pub fn stopped_before_start(stop_requested: bool) -> (res: Option<Result<(), TtsError>>)
    ensures
        stop_requested ==> res == Some(Ok::<(), TtsError>(())),
        !stop_requested ==> res is None,
{
    if stop_requested {
        Some(Ok(()))
    } else {
        None
    }
}

/// The outcome of a finished speech command: success, or a failure of the
/// engine with the exit status and the trimmed error output.
pub fn command_outcome(engine: &str, success: bool, status: String, stderr: &[u8]) -> (res: Result<
    (),
    TtsError,
>)
    ensures
        success ==> res is Ok,
        !success ==> (res matches Err(TtsError::CommandFailed { engine: e, status: s, stderr: m }) && e@
            == engine@ && s@ == status@ && m@ == trimmed(utf8_lossy(stderr@))),
{
    if success {
        Ok(())
    } else {
        Err(command_failure(engine, status, stderr))
    }
}

/// The failure of an engine whose command exited with `status` and wrote `stderr`.
pub fn command_failure(engine: &str, status: String, stderr: &[u8]) -> (res: TtsError)
    ensures
        res matches TtsError::CommandFailed { engine: e, status: s, stderr: m } && e@ == engine@ && s@
            == status@ && m@ == trimmed(utf8_lossy(stderr@)),
{
    let text = from_utf8_lossy(stderr);
    TtsError::CommandFailed { engine: String::from_str(engine), status, stderr: trim(text.as_str()) }
}

/// Speaking on a system without a speech engine.
pub fn unsupported_os() -> (res: Result<(), TtsError>)
    ensures
        res == Err::<(), TtsError>(TtsError::UnsupportedOs),
{
    Err(TtsError::UnsupportedOs)
}

/// What a wait loop does next.
#[derive(Debug, Clone, Copy, PartialEq, Eq, Structural)]
pub enum PollStep {
    /// Stop was asked: kill the command or the playback, and return.
    Stop,
    /// The command has exited or the playback has drained: collect the result.
    Finish,
    /// Sleep a little and look again.
    Wait,
}

/// The step of a loop that waits for a speech command: a stop request wins
/// over an exit seen at the same time.
pub fn process_poll(stop_requested: bool, exited: bool) -> (res: PollStep)
    ensures
        stop_requested ==> res == PollStep::Stop,
        !stop_requested && exited ==> res == PollStep::Finish,
        !stop_requested && !exited ==> res == PollStep::Wait,
{
    if stop_requested {
        PollStep::Stop
    } else if exited {
        PollStep::Finish
    } else {
        PollStep::Wait
    }
}

/// The step of a loop that waits for audio playback: drained playback ends the
/// loop before the stop request is looked at.
pub fn playback_poll(drained: bool, stop_requested: bool) -> (res: PollStep)
    ensures
        drained ==> res == PollStep::Finish,
        !drained && stop_requested ==> res == PollStep::Stop,
        !drained && !stop_requested ==> res == PollStep::Wait,
{
    if drained {
        PollStep::Finish
    } else if stop_requested {
        PollStep::Stop
    } else {
        PollStep::Wait
    }
}

/// The name of a temporary file: a prefix, a number and a suffix.
pub open spec fn temp_name(prefix: Seq<char>, id: nat, suffix: Seq<char>) -> Seq<char> {
    prefix + decimal(id) + suffix
}

/// A temporary file name made of `prefix`, the decimal `id` and `suffix`.
pub fn temp_file_name(prefix: &str, id: u128, suffix: &str) -> (res: String)
    ensures
        res@ == temp_name(prefix@, id as nat, suffix@),
{
    let mut s = String::from_str(prefix);
    push_decimal(&mut s, id);
    s.append(suffix);
    s
}

/// Whether a file name has the given prefix and suffix.
pub fn named_like(name: &str, prefix: &str, suffix: &str) -> (res: bool)
    ensures
        res == (has_prefix(name@, prefix@) && has_suffix(name@, suffix@)),
{
    crate::text::starts_with(name, prefix) && crate::text::ends_with(name, suffix)
}

/// A temporary file name has its prefix and its suffix.
pub proof fn lemma_temp_name_shape(prefix: Seq<char>, id: nat, suffix: Seq<char>)
    ensures
        has_prefix(temp_name(prefix, id, suffix), prefix),
        has_suffix(temp_name(prefix, id, suffix), suffix),
{
    let s = temp_name(prefix, id, suffix);
    assert(s.subrange(0, prefix.len() as int) =~= prefix);
    assert(s.subrange(s.len() - suffix.len(), s.len() as int) =~= suffix);
}

/// A value read from the environment, or `default` when it is not set.
pub fn env_or(value: Option<String>, default: &str) -> (res: String)
    ensures
        res@ == (match value {
            Some(v) => v@,
            None => default@,
        }),
{
    match value {
        Some(v) => v,
        None => String::from_str(default),
    }
}

} // verus!
