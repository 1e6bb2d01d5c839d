use speekr::tts::{attempt_step, stopped_before_start, AttemptStep};
use speekr::language::{Gender, Language};
use speekr::tts::edgetts::{EdgeTts, SYNTH_SCRIPT};
use speekr::tts::kitten::KittenTts;
use speekr::tts::linux::{LinuxBackend, LinuxTts};
use speekr::tts::macos::MacOsTts;
use speekr::tts::piper::PiperTts;
use speekr::tts::windows::{WindowsTts, SPEECH_SCRIPT};
use speekr::tts::{speech_engines, SpeechEngine};
use speekr::tts::{command_outcome, playback_poll, process_poll, speech_text, unsupported_os, PollStep, TtsError};

#[test]
fn speech_text_trims_and_rejects_blank() {
    assert_eq!(speech_text("  hello  "), Ok("hello".to_owned()));
    assert_eq!(speech_text(" \n "), Err(TtsError::EmptyText));
    assert_eq!(speech_text("  \n\t "), Err(TtsError::EmptyText));
}

#[test]
fn command_outcomes() {
    assert_eq!(command_outcome("espeak-ng", true, "exit status: 0".to_owned(), b"warn"), Ok(()));
    assert_eq!(command_outcome("espeak-ng", false, "exit status: 1".to_owned(), b" bad voice\n"),
        Err(TtsError::CommandFailed {
            engine: "espeak-ng".to_owned(),
            status: "exit status: 1".to_owned(),
            stderr: "bad voice".to_owned(),
        }));
}

#[test]
fn poll_steps() {
    assert_eq!(process_poll(true, true), PollStep::Stop);
    assert_eq!(process_poll(false, true), PollStep::Finish);
    assert_eq!(process_poll(false, false), PollStep::Wait);
    assert_eq!(playback_poll(true, true), PollStep::Finish);
    assert_eq!(playback_poll(false, true), PollStep::Stop);
    assert_eq!(playback_poll(false, false), PollStep::Wait);
}

#[test]
fn tts_error_messages() {
    assert_eq!(TtsError::EmptyText.message(), "text is empty");
    assert_eq!(TtsError::Io("gone".to_owned()).message(), "I/O error: gone");
    assert_eq!(TtsError::Audio("no device".to_owned()).message(), "audio playback error: no device");
    assert_eq!(TtsError::UnsupportedOs.message(), "TTS is not implemented for this OS");
    assert_eq!(TtsError::CommandFailed {
        engine: "Piper".to_owned(),
        status: "exit status: 1".to_owned(),
        stderr: "oops".to_owned(),
    }.message(), "Piper exited with exit status: 1: oops");
    assert_eq!(unsupported_os(), Err(TtsError::UnsupportedOs));
}

#[test]
fn temp_file_names_are_recognised() {
    let kitten = KittenTts::temp_file_name(42);
    assert_eq!(kitten, "speekr-kitten-42.wav");
    assert!(KittenTts::is_own_temp_file(&kitten));
    assert!(!KittenTts::is_own_temp_file("speekr-piper-42.wav"));
    let mac = MacOsTts::temp_file_name(7);
    assert_eq!(mac, "speekr-7.txt");
    assert!(MacOsTts::is_own_temp_file(&mac));
    assert!(!MacOsTts::is_own_temp_file("notes.txt"));
    assert_eq!(EdgeTts::temp_file_name(5), "speekr-edge-5.mp3");
    assert_eq!(PiperTts::temp_file_name(9), "speekr-piper-9.wav");
}

#[test]
fn engine_arguments() {
    assert_eq!(EdgeTts::synth_arguments(Language::Vietnamese, Gender::Male, "/tmp/a.mp3"),
        vec!["-c", SYNTH_SCRIPT, "vi-VN-NamMinhNeural", "/tmp/a.mp3"]);
    assert!(SYNTH_SCRIPT.starts_with("import sys,asyncio,edge_tts,io;sys.stdin="));
    assert_eq!(KittenTts::arguments("hi", "/tmp/k.wav"), vec!["--text", "hi", "--lang", "en", "--output", "/tmp/k.wav"]);
    assert_eq!(MacOsTts::say_arguments(Language::English, "/tmp/t.txt"), vec!["-v", "Samantha", "-f", "/tmp/t.txt"]);
    assert_eq!(MacOsTts::say_arguments(Language::Vietnamese, "/tmp/t.txt"), vec!["-f", "/tmp/t.txt"]);
    assert_eq!(LinuxTts::espeak_arguments("vi"), vec!["-v", "vi", "--stdin"]);
    assert_eq!(LinuxTts::command_probe("espeak-ng"), "command -v espeak-ng >/dev/null 2>&1");
    let piper = PiperTts::new("/models/en.onnx".to_owned());
    assert_eq!(piper.model_path(), "/models/en.onnx");
    assert_eq!(piper.arguments("/tmp/p.wav"), vec!["--model", "/models/en.onnx", "--output_file", "/tmp/p.wav"]);
    assert_eq!(WindowsTts::powershell_arguments(), vec!["-NoProfile", "-STA", "-Command", SPEECH_SCRIPT]);
    assert!(SPEECH_SCRIPT.contains("$speaker.Speak($text)"));
    let env = WindowsTts::voice_environment(None, Language::English, Gender::Male);
    assert_eq!(env, vec![("SPEEKR_CULTURE".to_owned(), "en-US".to_owned()),
        ("SPEEKR_VOICE_HINT".to_owned(), "David".to_owned())]);
    let env = WindowsTts::voice_environment(Some("vi-VN".to_owned()), Language::English, Gender::Female);
    assert_eq!(env, vec![("SPEEKR_CULTURE".to_owned(), "vi-VN".to_owned()),
        ("SPEEKR_VOICE_HINT".to_owned(), "Zira".to_owned())]);
}

#[test]
fn command_names_from_environment() {
    assert_eq!(KittenTts::command_name(None), "kittentts");
    assert_eq!(KittenTts::command_name(Some("/opt/kitten".to_owned())), "/opt/kitten");
    assert_eq!(PiperTts::command_name(None), "piper");
    assert_eq!(LinuxTts::espeak_voice_for(None, Language::Vietnamese), "vi");
    assert_eq!(LinuxTts::espeak_voice_for(Some("en-gb".to_owned()), Language::Vietnamese), "en-gb");
}

#[test]
fn linux_backend_choice() {
    assert_eq!(LinuxTts::backend(true, true), Ok(LinuxBackend::Espeak));
    assert_eq!(LinuxTts::backend(false, true), Ok(LinuxBackend::SpdSay));
    assert_eq!(LinuxTts::backend(false, false), Err(TtsError::CommandFailed {
        engine: "Linux TTS".to_owned(),
        status: "exit status: 127".to_owned(),
        stderr: "install espeak-ng or speech-dispatcher".to_owned(),
    }));
}

#[test]
fn kitten_synthesis_outcomes() {
    assert_eq!(KittenTts::synthesis_outcome(true, "exit status: 0".to_owned(), b"", true), Ok(()));
    assert_eq!(KittenTts::synthesis_outcome(true, "exit status: 0".to_owned(), b"", false),
        Err(TtsError::CommandFailed {
            engine: "KittenTTS".to_owned(),
            status: "exit status: 0".to_owned(),
            stderr: "kitten command returned success but did not create wav output".to_owned(),
        }));
    assert_eq!(KittenTts::synthesis_outcome(false, "exit status: 3".to_owned(), b"boom", false),
        Err(TtsError::CommandFailed {
            engine: "KittenTTS".to_owned(),
            status: "exit status: 3".to_owned(),
            stderr: "boom".to_owned(),
        }));
}

#[test]
fn piper_model_choice() {
    assert_eq!(PiperTts::model_variable(Language::English), "SPEEKR_PIPER_MODEL_EN");
    assert_eq!(PiperTts::choose_model(Some("/a".to_owned()), Some("/b".to_owned())), Some("/a".to_owned()));
    assert_eq!(PiperTts::choose_model(None, Some("/b".to_owned())), Some("/b".to_owned()));
    assert_eq!(PiperTts::choose_model(Some(String::new()), Some("/b".to_owned())), None);
    assert_eq!(PiperTts::choose_model(None, None), None);
}

#[test]
fn speech_engine_order() {
    let with_model = speech_engines(Some("/m.onnx".to_owned()));
    assert!(matches!(with_model.as_slice(),
        [SpeechEngine::Piper(p), SpeechEngine::EdgeTts, SpeechEngine::Platform] if p == "/m.onnx"));
    let without = speech_engines(None);
    assert!(matches!(without.as_slice(), [SpeechEngine::EdgeTts, SpeechEngine::Platform]));
}

#[test]
fn engine_attempt_steps() {
    assert!(matches!(attempt_step(Ok(()), false), AttemptStep::Done(Ok(()))));
    assert!(matches!(attempt_step(Ok(()), true), AttemptStep::Done(Ok(()))));
    assert!(matches!(attempt_step(Err(TtsError::Audio("no device".to_owned())), true),
        AttemptStep::Done(Err(TtsError::Audio(m))) if m == "no device"));
    assert!(matches!(attempt_step(Err(TtsError::Io("missing".to_owned())), false),
        AttemptStep::TryNext(TtsError::Io(m)) if m == "missing"));
}

#[test]
fn stop_before_start_ends_speaking() {
    assert_eq!(stopped_before_start(true), Some(Ok(())));
    assert_eq!(stopped_before_start(false), None);
}
