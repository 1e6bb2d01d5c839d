//! The application's decisions: what each hotkey press, menu click and
//! finished speech does to the settings and to the speech in progress, and
//! which effects the event loop carries out.
use vstd::prelude::*;
use crate::hotkey::HotkeyCommand;
use crate::language::{resolve_language, resolved_language, Gender, Language, LanguageMode};
use crate::tray::MenuCommand;

verus! {

/// The settings chosen in the tray menu.
#[derive(Debug, Clone, Copy, PartialEq, Eq, Structural)]
pub struct AppSettings {
    pub language_mode: LanguageMode,
    pub gender: Gender,
}

/// Something that happened and that the application answers.
#[derive(Debug, Clone, Copy, PartialEq, Eq, Structural)]
pub enum ControlEvent {
    /// A bound hotkey was released.
    Hotkey(HotkeyCommand),
    /// A tray menu item was clicked.
    Menu(MenuCommand),
    /// The worker of speech job `job` has returned.
    JobFinished(u64),
    /// A worker announced the end of its speech.
    SpeechFinished,
    /// The popup asked to be closed.
    ClosePopup,
}

/// Something the event loop or the worker does in answer to an event.
#[derive(Debug, Clone, Copy, PartialEq, Eq, Structural)]
pub enum Effect {
    /// Enable or disable the "Cancel current speech" menu item.
    SetCancelEnabled(bool),
    /// Raise the stop signal of speech job `job`.
    StopSpeech(u64),
    /// Close the translation popup, if one is open.
    ClosePopup,
    /// Read the selection and speak it as job `job`, with these settings.
    StartSpeech { job: u64, settings: AppSettings },
    /// Read the selection and show its translation in a popup.
    StartTranslation,
    /// Check the voice item of `gender` in the menu.
    ShowVoice(Gender),
    /// Check the language item of the mode in the menu.
    ShowLanguageMode(LanguageMode),
    /// Tell the event loop that a speech has ended.
    AnnounceSpeechFinished,
    /// Leave the event loop.
    Exit,
}

/// The state behind the application's decisions.
#[derive(Debug, Clone, Copy, PartialEq, Eq, Structural)]
pub struct Controller {
    /// The settings chosen in the menu.
    pub settings: AppSettings,
    /// The speech job in progress, if any.
    pub current_job: Option<u64>,
    /// The number that the next speech job gets.
    pub next_job: u64,
}

/// The state after `event`.
pub open spec fn next_state(c: Controller, event: ControlEvent) -> Controller {
    match event {
        ControlEvent::Hotkey(HotkeyCommand::Speak) => match c.current_job {
            Some(_) => Controller { current_job: None, ..c },
            None => Controller {
                current_job: Some(c.next_job),
                next_job: c.next_job.wrapping_add(1),
                ..c
            },
        },
        ControlEvent::Hotkey(HotkeyCommand::Translate) => c,
        ControlEvent::Menu(MenuCommand::Cancel) => Controller { current_job: None, ..c },
        ControlEvent::Menu(MenuCommand::VoiceFemale) => Controller {
            settings: AppSettings { gender: Gender::Female, ..c.settings },
            ..c
        },
        ControlEvent::Menu(MenuCommand::VoiceMale) => Controller {
            settings: AppSettings { gender: Gender::Male, ..c.settings },
            ..c
        },
        ControlEvent::Menu(MenuCommand::LangAuto) => Controller {
            settings: AppSettings { language_mode: LanguageMode::Auto, ..c.settings },
            ..c
        },
        ControlEvent::Menu(MenuCommand::LangEnglish) => Controller {
            settings: AppSettings { language_mode: LanguageMode::English, ..c.settings },
            ..c
        },
        ControlEvent::Menu(MenuCommand::LangVietnamese) => Controller {
            settings: AppSettings { language_mode: LanguageMode::Vietnamese, ..c.settings },
            ..c
        },
        ControlEvent::Menu(MenuCommand::Quit) => c,
        ControlEvent::JobFinished(job) => if c.current_job == Some(job) {
            Controller { current_job: None, ..c }
        } else {
            c
        },
        ControlEvent::SpeechFinished => c,
        ControlEvent::ClosePopup => c,
    }
}

/// The effects of `event`, in the order they are carried out.
pub open spec fn effects_of(c: Controller, event: ControlEvent) -> Seq<Effect> {
    match event {
        ControlEvent::Hotkey(HotkeyCommand::Speak) => match c.current_job {
            Some(job) => seq![Effect::StopSpeech(job), Effect::SetCancelEnabled(false), Effect::ClosePopup],
            None => seq![
                Effect::SetCancelEnabled(true),
                Effect::ClosePopup,
                Effect::StartSpeech { job: c.next_job, settings: c.settings },
            ],
        },
        ControlEvent::Hotkey(HotkeyCommand::Translate) => seq![Effect::StartTranslation],
        ControlEvent::Menu(MenuCommand::Cancel) => match c.current_job {
            Some(job) => seq![Effect::StopSpeech(job), Effect::SetCancelEnabled(false), Effect::ClosePopup],
            None => seq![],
        },
        ControlEvent::Menu(MenuCommand::VoiceFemale) => seq![Effect::ShowVoice(Gender::Female)],
        ControlEvent::Menu(MenuCommand::VoiceMale) => seq![Effect::ShowVoice(Gender::Male)],
        ControlEvent::Menu(MenuCommand::LangAuto) => seq![Effect::ShowLanguageMode(LanguageMode::Auto)],
        ControlEvent::Menu(MenuCommand::LangEnglish) => seq![Effect::ShowLanguageMode(LanguageMode::English)],
        ControlEvent::Menu(MenuCommand::LangVietnamese) => seq![
            Effect::ShowLanguageMode(LanguageMode::Vietnamese),
        ],
        ControlEvent::Menu(MenuCommand::Quit) => seq![Effect::Exit],
        ControlEvent::JobFinished(_) => seq![Effect::ClosePopup, Effect::AnnounceSpeechFinished],
        ControlEvent::SpeechFinished => seq![Effect::SetCancelEnabled(false)],
        ControlEvent::ClosePopup => seq![Effect::ClosePopup],
    }
}

impl Controller {
    /// The state at start: auto-detected language, female voice, no speech.
    pub fn new() -> (res: Self)
        ensures
            res.settings == (AppSettings { language_mode: LanguageMode::Auto, gender: Gender::Female }),
            res.current_job is None,
            res.next_job == 0,
    {
        Controller {
            settings: AppSettings { language_mode: LanguageMode::Auto, gender: Gender::Female },
            current_job: None,
            next_job: 0,
        }
    }

    /// The effects at start: nothing is spoken, so cancelling is disabled.
    pub fn startup_effects(&self) -> (res: Vec<Effect>)
        ensures
            res@ == seq![Effect::SetCancelEnabled(false)],
    {
        vec![Effect::SetCancelEnabled(false)]
    }

    /// Stops the speech in progress, if any, and gives its job.
    fn take_job(&mut self) -> (res: Option<u64>)
        ensures
            res == old(self).current_job,
            *final(self) == (Controller { current_job: None, ..*old(self) }),
    {
        let job = self.current_job;
        self.current_job = None;
        job
    }

    /// Answers an event: updates the state and gives the effects to carry out.
    pub fn handle(&mut self, event: ControlEvent) -> (res: Vec<Effect>)
        ensures
            *final(self) == next_state(*old(self), event),
            res@ == effects_of(*old(self), event),
    {
        match event {
            ControlEvent::Hotkey(HotkeyCommand::Speak) => {
                let settings = self.settings;
                match self.take_job() {
                    Some(job) => vec![Effect::StopSpeech(job), Effect::SetCancelEnabled(false), Effect::ClosePopup],
                    None => {
                        let job: u64 = self.next_job;
                        self.current_job = Some(job);
                        self.next_job = self.next_job.wrapping_add(1);
                        vec![
                            Effect::SetCancelEnabled(true),
                            Effect::ClosePopup,
                            Effect::StartSpeech { job, settings },
                        ]
                    },
                }
            },
            ControlEvent::Hotkey(HotkeyCommand::Translate) => vec![Effect::StartTranslation],
            ControlEvent::Menu(MenuCommand::Cancel) => match self.take_job() {
                Some(job) => vec![Effect::StopSpeech(job), Effect::SetCancelEnabled(false), Effect::ClosePopup],
                None => Vec::new(),
            },
            ControlEvent::Menu(MenuCommand::VoiceFemale) => {
                self.settings.gender = Gender::Female;
                vec![Effect::ShowVoice(Gender::Female)]
            },
            ControlEvent::Menu(MenuCommand::VoiceMale) => {
                self.settings.gender = Gender::Male;
                vec![Effect::ShowVoice(Gender::Male)]
            },
            ControlEvent::Menu(MenuCommand::LangAuto) => {
                self.settings.language_mode = LanguageMode::Auto;
                vec![Effect::ShowLanguageMode(LanguageMode::Auto)]
            },
            ControlEvent::Menu(MenuCommand::LangEnglish) => {
                self.settings.language_mode = LanguageMode::English;
                vec![Effect::ShowLanguageMode(LanguageMode::English)]
            },
            ControlEvent::Menu(MenuCommand::LangVietnamese) => {
                self.settings.language_mode = LanguageMode::Vietnamese;
                vec![Effect::ShowLanguageMode(LanguageMode::Vietnamese)]
            },
            ControlEvent::Menu(MenuCommand::Quit) => vec![Effect::Exit],
            ControlEvent::JobFinished(job) => {
                if self.current_job == Some(job) {
                    self.current_job = None;
                }
                vec![Effect::ClosePopup, Effect::AnnounceSpeechFinished]
            },
            ControlEvent::SpeechFinished => vec![Effect::SetCancelEnabled(false)],
            ControlEvent::ClosePopup => vec![Effect::ClosePopup],
        }
    }
}

/// The language a selected text is spoken in, or none when the job was
/// stopped while the text was being read.
pub fn speech_language(settings: AppSettings, text: &str, stop_requested: bool) -> (res: Option<Language>)
    ensures
        stop_requested ==> res is None,
        !stop_requested ==> res == Some(resolved_language(settings.language_mode, text@)),
{
    if stop_requested {
        None
    } else {
        Some(resolve_language(settings.language_mode, text))
    }
}

/// Pressing the speak hotkey while nothing is spoken starts a new job with the
/// current settings; pressing it again stops that job and leaves nothing running.
pub proof fn law_speak_hotkey_toggles(c: Controller)
    requires
        c.current_job is None,
    ensures
        ({
            let speak = ControlEvent::Hotkey(HotkeyCommand::Speak);
            let started = next_state(c, speak);
            &&& started.current_job == Some(c.next_job)
            &&& effects_of(c, speak).contains(Effect::StartSpeech { job: c.next_job, settings: c.settings })
            &&& next_state(started, speak).current_job is None
            &&& effects_of(started, speak).contains(Effect::StopSpeech(c.next_job))
            &&& next_state(started, speak).settings == c.settings
        }),
{
    let speak = ControlEvent::Hotkey(HotkeyCommand::Speak);
    assert(effects_of(c, speak)[2] == Effect::StartSpeech { job: c.next_job, settings: c.settings });
    assert(effects_of(next_state(c, speak), speak)[0] == Effect::StopSpeech(c.next_job));
}

/// Cancelling stops the job in progress and disables the cancel item; a second
/// cancel (or a cancel with nothing in progress) changes nothing and does nothing.
pub proof fn law_cancel(c: Controller)
    ensures
        ({
            let cancel = ControlEvent::Menu(MenuCommand::Cancel);
            let after = next_state(c, cancel);
            &&& after.current_job is None
            &&& after.settings == c.settings
            &&& after.next_job == c.next_job
            &&& (c.current_job matches Some(job) ==> effects_of(c, cancel) == seq![
                Effect::StopSpeech(job),
                Effect::SetCancelEnabled(false),
                Effect::ClosePopup,
            ])
            &&& (c.current_job is None ==> after == c && effects_of(c, cancel).len() == 0)
            &&& next_state(after, cancel) == after
            &&& effects_of(after, cancel).len() == 0
        }),
{
}

/// A finished worker clears only its own job: the end of an older, already
/// stopped job leaves the job in progress running.
pub proof fn law_stale_job_end_keeps_current(c: Controller, job: u64)
    requires
        c.current_job != Some(job),
    ensures
        next_state(c, ControlEvent::JobFinished(job)) == c,
{
}

/// The worker of the job in progress clears it when it returns.
pub proof fn law_own_job_end_clears(c: Controller, job: u64)
    requires
        c.current_job == Some(job),
    ensures
        next_state(c, ControlEvent::JobFinished(job)).current_job is None,
{
}

/// A menu choice of voice or language is the setting that the next speech uses,
/// and it does not touch the speech in progress.
pub proof fn law_menu_choice_applies_to_next_speech(c: Controller, command: MenuCommand)
    requires
        command != MenuCommand::Quit,
        command != MenuCommand::Cancel,
    ensures
        ({
            let after = next_state(c, ControlEvent::Menu(command));
            &&& after.current_job == c.current_job
            &&& after.next_job == c.next_job
            &&& command == MenuCommand::VoiceFemale ==> after.settings.gender == Gender::Female
            &&& command == MenuCommand::VoiceMale ==> after.settings.gender == Gender::Male
            &&& command == MenuCommand::LangAuto ==> after.settings.language_mode == LanguageMode::Auto
            &&& command == MenuCommand::LangEnglish ==> after.settings.language_mode == LanguageMode::English
            &&& command == MenuCommand::LangVietnamese ==> after.settings.language_mode
                == LanguageMode::Vietnamese
            &&& (after.current_job is None ==> effects_of(after, ControlEvent::Hotkey(HotkeyCommand::Speak))[2]
                == Effect::StartSpeech { job: after.next_job, settings: after.settings })
        }),
{
}

/// The translate hotkey only starts a translation: the speech in progress and
/// the settings are left as they are.
pub proof fn law_translation_leaves_speech_alone(c: Controller)
    ensures
        next_state(c, ControlEvent::Hotkey(HotkeyCommand::Translate)) == c,
        effects_of(c, ControlEvent::Hotkey(HotkeyCommand::Translate)) == seq![Effect::StartTranslation],
{
}

/// Every effect list that starts a speech enables the cancel item first, and
/// every one that stops a speech disables it.
pub proof fn law_cancel_item_follows_speech(c: Controller, event: ControlEvent)
    ensures
        forall|k: int|
            0 <= k < effects_of(c, event).len() ==> {
                &&& (#[trigger] effects_of(c, event)[k] is StartSpeech ==> effects_of(c, event)[0]
                    == Effect::SetCancelEnabled(true))
                &&& (effects_of(c, event)[k] is StopSpeech ==> effects_of(c, event).contains(
                    Effect::SetCancelEnabled(false),
                ))
            },
{
    match event {
        ControlEvent::Hotkey(HotkeyCommand::Speak) | ControlEvent::Menu(MenuCommand::Cancel) => {
            if c.current_job is Some {
                assert(effects_of(c, event)[1] == Effect::SetCancelEnabled(false));
            }
        },
        _ => {},
    }
}

/// Every end of a speech job, whichever job it was and whatever the state, is
/// announced, and the announcement greys the cancel item out: a speech that
/// ends on its own leaves "Cancel current speech" disabled, as one that is
/// stopped does.
pub proof fn law_job_end_disables_cancel(c: Controller, job: u64)
    ensures
        effects_of(c, ControlEvent::JobFinished(job)).contains(Effect::AnnounceSpeechFinished),
        effects_of(c, ControlEvent::JobFinished(job)).contains(Effect::ClosePopup),
        effects_of(next_state(c, ControlEvent::JobFinished(job)), ControlEvent::SpeechFinished).contains(
            Effect::SetCancelEnabled(false),
        ),
        c.current_job == Some(job) ==> next_state(c, ControlEvent::JobFinished(job)).current_job is None,
{
    let effects = effects_of(c, ControlEvent::JobFinished(job));
    assert(effects[0] == Effect::ClosePopup);
    assert(effects[1] == Effect::AnnounceSpeechFinished);
    let after = next_state(c, ControlEvent::JobFinished(job));
    assert(effects_of(after, ControlEvent::SpeechFinished)[0] == Effect::SetCancelEnabled(false));
}

} // verus!
