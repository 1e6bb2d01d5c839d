//! The Windows engine: `System.Speech` through PowerShell.
use vstd::prelude::*;
use crate::language::{culture_name, Gender, Language};
use crate::text::views;

verus! {

/// Speech through the Windows `System.Speech` synthesizer.
pub struct WindowsTts;

/// PowerShell script that picks a voice (the `SPEEKR_VOICE` or
/// `SPEEKR_VOICE_HINT` name, else an installed voice of the `SPEEKR_CULTURE`
/// culture, preferring natural and Microsoft voices) and speaks standard input.
pub const SPEECH_SCRIPT: &'static str = "
Add-Type -AssemblyName System.Speech
$speaker = New-Object System.Speech.Synthesis.SpeechSynthesizer
$speaker.SetOutputToDefaultAudioDevice()
$voiceHint = $env:SPEEKR_VOICE_HINT
if ($env:SPEEKR_VOICE) {
    $voiceHint = $env:SPEEKR_VOICE
}
$voiceSelected = $false

if ($voiceHint) {
    try {
        $speaker.SelectVoice($voiceHint)
        $voiceSelected = $true
    } catch {}
}

$installed = @($speaker.GetInstalledVoices() | ForEach-Object { $_.VoiceInfo })
$cultureName = $env:SPEEKR_CULTURE
if (-not $voiceSelected -and $cultureName) {
  try {
    $culture = [System.Globalization.CultureInfo]::GetCultureInfo($cultureName)
        $matches = @($installed | Where-Object { $_.Culture.Name -eq $culture.Name })
        if ($matches.Count -gt 0) {
            $preferred = $matches |
                Sort-Object -Property @{
                    Expression = {
                        if ($_.Name -match 'Natural|Neural') { 0 }
                        elseif ($_.Name -match 'Microsoft') { 1 }
                        else { 2 }
                    }
                }, Name |
                Select-Object -First 1
            if ($preferred) {
                $speaker.SelectVoice($preferred.Name)
                $voiceSelected = $true
            }
        }
  } catch {}
}

if (-not $voiceSelected) {
    try {
        $speaker.SelectVoiceByHints([System.Speech.Synthesis.VoiceGender]::NotSet)
    } catch {}
}

$text = [Console]::In.ReadToEnd()
$speaker.Speak($text)
";

impl WindowsTts {
    /// Arguments of `powershell` that run the speech script.
    pub fn powershell_arguments() -> (res: Vec<String>)
        ensures
            views(res@) == seq!["-NoProfile"@, "-STA"@, "-Command"@, SPEECH_SCRIPT@],
    {
        let res = vec![
            String::from_str("-NoProfile"),
            String::from_str("-STA"),
            String::from_str("-Command"),
            String::from_str(SPEECH_SCRIPT),
        ];
        assert(views(res@) =~= seq!["-NoProfile"@, "-STA"@, "-Command"@, SPEECH_SCRIPT@]);
        res
    }

    /// The environment of the speech script: `SPEEKR_CULTURE` is the user's
    /// value when set, else the language's culture; `SPEEKR_VOICE_HINT` comes
    /// from the language and the gender. (A user's `SPEEKR_VOICE`, which the
    /// script prefers over the hint, is inherited unchanged.)
    pub fn voice_environment(configured_culture: Option<String>, language: Language, gender: Gender) -> (res: Vec<
        (String, String),
    >)
        ensures
            res@.len() == 2,
            res@[0].0@ == "SPEEKR_CULTURE"@,
            res@[0].1@ == (match configured_culture {
                Some(c) => c@,
                None => culture_name(language),
            }),
            res@[1].0@ == "SPEEKR_VOICE_HINT"@,
            res@[1].1@ == (match (language, gender) {
                (Language::English, Gender::Female) => "Zira"@,
                (Language::English, Gender::Male) => "David"@,
                (Language::Vietnamese, _) => ""@,
            }),
    {
        let culture = match configured_culture {
            Some(c) => c,
            None => String::from_str(language.windows_culture()),
        };
        vec![
            (String::from_str("SPEEKR_CULTURE"), culture),
            (String::from_str("SPEEKR_VOICE_HINT"), String::from_str(language.windows_voice_hint(gender))),
        ]
    }
}

} // verus!
