//! The Piper engine: a neural voice model given by an environment variable.
use vstd::prelude::*;
use crate::language::Language;
use crate::text::views;
use super::temp_name;

verus! {

/// Speech through the `piper` command with a voice model.
pub struct PiperTts {
    model_path: String,
}

/// The model path chosen from the environment: the language's variable when
/// set, else the general one; none when that value is empty.
pub open spec fn chosen_model(specific: Option<String>, general: Option<String>) -> Option<Seq<char>> {
    let v = match specific {
        Some(s) => Some(s@),
        None => match general {
            Some(g) => Some(g@),
            None => None,
        },
    };
    match v {
        Some(p) => if p.len() > 0 {
            Some(p)
        } else {
            None
        },
        None => None,
    }
}

impl PiperTts {
    /// An engine speaking with the model at `model_path`.
    pub fn new(model_path: String) -> (res: Self)
        ensures
            res.model() == model_path@,
    {
        Self { model_path }
    }

    /// The path of the voice model.
    pub closed spec fn model(&self) -> Seq<char> {
        self.model_path@
    }

    /// The path of the voice model.
    pub fn model_path(&self) -> (res: &str)
        ensures
            res@ == self.model(),
    {
        self.model_path.as_str()
    }

    /// Name of the temporary WAV file of request `id`.
    pub fn temp_file_name(id: u128) -> (res: String)
        ensures
            res@ == temp_name("speekr-piper-"@, id as nat, ".wav"@),
    {
        super::temp_file_name("speekr-piper-", id, ".wav")
    }

    /// The command to run: `SPEEKR_PIPER_BIN` when set, else `piper`.
    pub fn command_name(configured: Option<String>) -> (res: String)
        ensures
            res@ == (match configured {
                Some(v) => v@,
                None => "piper"@,
            }),
    {
        super::env_or(configured, "piper")
    }

    /// Arguments of `piper` that synthesise standard input into `wav_path`.
    pub fn arguments(&self, wav_path: &str) -> (res: Vec<String>)
        ensures
            views(res@) == seq!["--model"@, self.model(), "--output_file"@, wav_path@],
    {
        let res = vec![
            String::from_str("--model"),
            String::from_str(self.model_path.as_str()),
            String::from_str("--output_file"),
            String::from_str(wav_path),
        ];
        assert(views(res@) =~= seq!["--model"@, self.model(), "--output_file"@, wav_path@]);
        res
    }

    /// The environment variable that names the model of a language.
    pub fn model_variable(language: Language) -> (res: &'static str)
        ensures
            res@ == (match language {
                Language::English => "SPEEKR_PIPER_MODEL_EN"@,
                Language::Vietnamese => "SPEEKR_PIPER_MODEL_VI"@,
            }),
    {
        match language {
            Language::English => "SPEEKR_PIPER_MODEL_EN",
            Language::Vietnamese => "SPEEKR_PIPER_MODEL_VI",
        }
    }

    /// The model path from the values of the language's variable and of
    /// `SPEEKR_PIPER_MODEL`.
    pub fn choose_model(specific: Option<String>, general: Option<String>) -> (res: Option<String>)
        ensures
            match chosen_model(specific, general) {
                Some(p) => res matches Some(r) && r@ == p,
                None => res is None,
            },
    {
        let v = match specific {
            Some(s) => Some(s),
            None => general,
        };
        match v {
            Some(p) => {
                if p.as_str().unicode_len() > 0 {
                    Some(p)
                } else {
                    None
                }
            },
            None => None,
        }
    }
}

/// A chosen model path is never empty, and a set language variable takes
/// precedence over the general one, even when it is empty.
pub proof fn law_model_choice(specific: Option<String>, general: Option<String>)
    ensures
        chosen_model(specific, general) matches Some(p) ==> p.len() > 0,
        specific matches Some(s) ==> chosen_model(specific, general) == (if s@.len() > 0 {
            Some(s@)
        } else {
            None::<Seq<char>>
        }),
{
}

} // verus!
