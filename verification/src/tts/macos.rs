//! The macOS engine: the `say` command reading a temporary text file.
use vstd::prelude::*;
use crate::language::Language;
use crate::text::{has_prefix, has_suffix};
use crate::text::views;
use super::temp_name;

verus! {

/// Speech through the macOS `say` command.
pub struct MacOsTts;

impl MacOsTts {
    /// Name of the temporary text file of request `id`.
    pub fn temp_file_name(id: u128) -> (res: String)
        ensures
            res@ == temp_name("speekr-"@, id as nat, ".txt"@),
    {
        super::temp_file_name("speekr-", id, ".txt")
    }

    /// Whether a file name is one of this engine's temporary text files, which
    /// alone may be removed.
    pub fn is_own_temp_file(name: &str) -> (res: bool)
        ensures
            res == (has_prefix(name@, "speekr-"@) && has_suffix(name@, ".txt"@)),
    {
        super::named_like(name, "speekr-", ".txt")
    }

    /// Arguments of `say` that read `text_path`, with the language's voice where it has one.
    pub fn say_arguments(language: Language, text_path: &str) -> (res: Vec<String>)
        ensures
            views(res@) == (match language {
                Language::English => seq!["-v"@, "Samantha"@, "-f"@, text_path@],
                Language::Vietnamese => seq!["-f"@, text_path@],
            }),
    {
        let mut res: Vec<String> = Vec::new();
        match language.macos_voice() {
            Some(voice) => {
                res.push(String::from_str("-v"));
                res.push(String::from_str(voice));
            },
            None => {},
        }
        res.push(String::from_str("-f"));
        res.push(String::from_str(text_path));
        proof {
            match language {
                Language::English => {
                    assert(views(res@) =~= seq!["-v"@, "Samantha"@, "-f"@, text_path@]);
                },
                Language::Vietnamese => {
                    assert(views(res@) =~= seq!["-f"@, text_path@]);
                },
            }
        }
        res
    }
}

/// Every temporary file that the macOS engine names is one that its cleanup removes.
pub proof fn law_macos_cleans_its_own_files(id: nat)
    ensures
        has_prefix(temp_name("speekr-"@, id, ".txt"@), "speekr-"@),
        has_suffix(temp_name("speekr-"@, id, ".txt"@), ".txt"@),
{
    super::lemma_temp_name_shape("speekr-"@, id, ".txt"@);
}

} // verus!
