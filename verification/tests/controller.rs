use speekr::controller::{speech_language, AppSettings, ControlEvent, Controller, Effect};
use speekr::hotkey::HotkeyCommand;
use speekr::language::{Gender, Language, LanguageMode};
use speekr::tray::MenuCommand;

fn speak() -> ControlEvent {
    ControlEvent::Hotkey(HotkeyCommand::Speak)
}

#[test]
fn start_state_and_effects() {
    let c = Controller::new();
    assert_eq!(c.settings, AppSettings { language_mode: LanguageMode::Auto, gender: Gender::Female });
    assert_eq!(c.current_job, None);
    assert_eq!(c.startup_effects(), vec![Effect::SetCancelEnabled(false)]);
}

#[test]
fn speak_hotkey_starts_then_cancels() {
    let mut c = Controller::new();
    let first = c.handle(speak());
    assert_eq!(first, vec![
        Effect::SetCancelEnabled(true),
        Effect::ClosePopup,
        Effect::StartSpeech { job: 0, settings: c.settings },
    ]);
    assert_eq!(c.current_job, Some(0));
    let second = c.handle(speak());
    assert_eq!(second, vec![Effect::StopSpeech(0), Effect::SetCancelEnabled(false), Effect::ClosePopup]);
    assert_eq!(c.current_job, None);
    let third = c.handle(speak());
    assert_eq!(third[2], Effect::StartSpeech { job: 1, settings: c.settings });
}

#[test]
fn cancel_menu_stops_and_is_idempotent() {
    let mut c = Controller::new();
    c.handle(speak());
    let cancel = ControlEvent::Menu(MenuCommand::Cancel);
    assert_eq!(c.handle(cancel), vec![Effect::StopSpeech(0), Effect::SetCancelEnabled(false), Effect::ClosePopup]);
    let after = c;
    assert_eq!(c.handle(cancel), Vec::<Effect>::new());
    assert_eq!(c, after);
}

#[test]
fn stale_job_end_keeps_new_job() {
    let mut c = Controller::new();
    c.handle(speak()); // job 0
    c.handle(speak()); // stops job 0
    c.handle(speak()); // job 1
    let effects = c.handle(ControlEvent::JobFinished(0));
    assert_eq!(effects, vec![Effect::ClosePopup, Effect::AnnounceSpeechFinished]);
    assert_eq!(c.current_job, Some(1));
    c.handle(ControlEvent::JobFinished(1));
    assert_eq!(c.current_job, None);
}

#[test]
fn menu_settings_apply_to_next_speech() {
    let mut c = Controller::new();
    assert_eq!(c.handle(ControlEvent::Menu(MenuCommand::VoiceMale)), vec![Effect::ShowVoice(Gender::Male)]);
    assert_eq!(c.handle(ControlEvent::Menu(MenuCommand::LangVietnamese)),
        vec![Effect::ShowLanguageMode(LanguageMode::Vietnamese)]);
    let effects = c.handle(speak());
    assert_eq!(effects[2], Effect::StartSpeech {
        job: 0,
        settings: AppSettings { language_mode: LanguageMode::Vietnamese, gender: Gender::Male },
    });
}

#[test]
fn other_events() {
    let mut c = Controller::new();
    assert_eq!(c.handle(ControlEvent::Hotkey(HotkeyCommand::Translate)), vec![Effect::StartTranslation]);
    assert_eq!(c.handle(ControlEvent::Menu(MenuCommand::Quit)), vec![Effect::Exit]);
    assert_eq!(c.handle(ControlEvent::SpeechFinished), vec![Effect::SetCancelEnabled(false)]);
    assert_eq!(c.handle(ControlEvent::ClosePopup), vec![Effect::ClosePopup]);
    assert_eq!(c.handle(ControlEvent::Menu(MenuCommand::VoiceFemale)), vec![Effect::ShowVoice(Gender::Female)]);
    assert_eq!(c.handle(ControlEvent::Menu(MenuCommand::LangAuto)), vec![Effect::ShowLanguageMode(LanguageMode::Auto)]);
    assert_eq!(c.handle(ControlEvent::Menu(MenuCommand::LangEnglish)),
        vec![Effect::ShowLanguageMode(LanguageMode::English)]);
    assert_eq!(c.settings.language_mode, LanguageMode::English);
}

#[test]
fn job_numbers_wrap_around() {
    let mut c = Controller::new();
    c.next_job = u64::MAX;
    let effects = c.handle(speak());
    assert_eq!(effects[2], Effect::StartSpeech { job: u64::MAX, settings: c.settings });
    assert_eq!(c.next_job, 0);
}

#[test]
fn speech_language_checks_stop_first() {
    let settings = AppSettings { language_mode: LanguageMode::Auto, gender: Gender::Female };
    assert_eq!(speech_language(settings, "Xin chào bạn", true), None);
    assert_eq!(speech_language(settings, "Xin chào bạn", false), Some(Language::Vietnamese));
    let english = AppSettings { language_mode: LanguageMode::English, gender: Gender::Male };
    assert_eq!(speech_language(english, "Xin chào bạn", false), Some(Language::English));
}

#[test]
fn translation_hotkey_leaves_speech_running() {
    let mut c = Controller::new();
    c.handle(speak());
    let before = c;
    assert_eq!(c.handle(ControlEvent::Hotkey(HotkeyCommand::Translate)), vec![Effect::StartTranslation]);
    assert_eq!(c, before);
}
