//! Languages, voices and the detection of the language a text is written in.
use vstd::prelude::*;

verus! {

/// A language that speech can be produced in.
#[derive(Debug, Clone, Copy, PartialEq, Eq, Structural)]
pub enum Language {
    English,
    Vietnamese,
}

/// The voice gender chosen in the tray menu.
#[derive(Debug, Clone, Copy, PartialEq, Eq, Structural)]
pub enum Gender {
    Female,
    Male,
}

/// How the TTS language is determined for each request.
#[derive(Debug, Clone, Copy, PartialEq, Eq, Structural)]
pub enum LanguageMode {
    /// Auto-detect language from the selected text.
    Auto,
    English,
    Vietnamese,
}

/// The Vietnamese-specific letters: the vowels with Vietnamese diacritics and `đ`, in both cases.
pub open spec fn is_vietnamese_letter(c: char) -> bool {
    match c {
        'à' | 'á' | 'ả' | 'ã' | 'ạ' | 'ă' | 'ắ' | 'ặ' | 'ằ' | 'ẳ' | 'ẵ' | 'â'
        | 'ấ' | 'ậ' | 'ầ' | 'ẩ' | 'ẫ' | 'è' | 'é' | 'ẻ' | 'ẽ' | 'ẹ' | 'ê' | 'ế'
        | 'ệ' | 'ề' | 'ể' | 'ễ' | 'ì' | 'í' | 'ỉ' | 'ĩ' | 'ị' | 'ò' | 'ó' | 'ỏ'
        | 'õ' | 'ọ' | 'ô' | 'ố' | 'ộ' | 'ồ' | 'ổ' | 'ỗ' | 'ơ' | 'ớ' | 'ợ' | 'ờ'
        | 'ở' | 'ỡ' | 'ù' | 'ú' | 'ủ' | 'ũ' | 'ụ' | 'ư' | 'ứ' | 'ự' | 'ừ' | 'ử'
        | 'ữ' | 'ỳ' | 'ý' | 'ỷ' | 'ỹ' | 'ỵ' | 'đ' | 'À' | 'Á' | 'Ả' | 'Ã' | 'Ạ'
        | 'Ă' | 'Ắ' | 'Ặ' | 'Ằ' | 'Ẳ' | 'Ẵ' | 'Â' | 'Ấ' | 'Ậ' | 'Ầ' | 'Ẩ' | 'Ẫ'
        | 'È' | 'É' | 'Ẻ' | 'Ẽ' | 'Ẹ' | 'Ê' | 'Ế' | 'Ệ' | 'Ề' | 'Ể' | 'Ễ' | 'Ì'
        | 'Í' | 'Ỉ' | 'Ĩ' | 'Ị' | 'Ò' | 'Ó' | 'Ỏ' | 'Õ' | 'Ọ' | 'Ô' | 'Ố' | 'Ộ'
        | 'Ồ' | 'Ổ' | 'Ỗ' | 'Ơ' | 'Ớ' | 'Ợ' | 'Ờ' | 'Ở' | 'Ỡ' | 'Ù' | 'Ú' | 'Ủ'
        | 'Ũ' | 'Ụ' | 'Ư' | 'Ứ' | 'Ự' | 'Ừ' | 'Ử' | 'Ữ' | 'Ỳ' | 'Ý' | 'Ỷ' | 'Ỹ'
        | 'Ỵ' | 'Đ' => true,
        _ => false,
    }
}

/// Whether `c` is one of the Vietnamese-specific letters.
pub fn is_vietnamese_char(c: char) -> (res: bool)
    ensures
        res == is_vietnamese_letter(c),
{
    matches!(c,
        'à' | 'á' | 'ả' | 'ã' | 'ạ' | 'ă' | 'ắ' | 'ặ' | 'ằ' | 'ẳ' | 'ẵ' | 'â'
        | 'ấ' | 'ậ' | 'ầ' | 'ẩ' | 'ẫ' | 'è' | 'é' | 'ẻ' | 'ẽ' | 'ẹ' | 'ê' | 'ế'
        | 'ệ' | 'ề' | 'ể' | 'ễ' | 'ì' | 'í' | 'ỉ' | 'ĩ' | 'ị' | 'ò' | 'ó' | 'ỏ'
        | 'õ' | 'ọ' | 'ô' | 'ố' | 'ộ' | 'ồ' | 'ổ' | 'ỗ' | 'ơ' | 'ớ' | 'ợ' | 'ờ'
        | 'ở' | 'ỡ' | 'ù' | 'ú' | 'ủ' | 'ũ' | 'ụ' | 'ư' | 'ứ' | 'ự' | 'ừ' | 'ử'
        | 'ữ' | 'ỳ' | 'ý' | 'ỷ' | 'ỹ' | 'ỵ' | 'đ' | 'À' | 'Á' | 'Ả' | 'Ã' | 'Ạ'
        | 'Ă' | 'Ắ' | 'Ặ' | 'Ằ' | 'Ẳ' | 'Ẵ' | 'Â' | 'Ấ' | 'Ậ' | 'Ầ' | 'Ẩ' | 'Ẫ'
        | 'È' | 'É' | 'Ẻ' | 'Ẽ' | 'Ẹ' | 'Ê' | 'Ế' | 'Ệ' | 'Ề' | 'Ể' | 'Ễ' | 'Ì'
        | 'Í' | 'Ỉ' | 'Ĩ' | 'Ị' | 'Ò' | 'Ó' | 'Ỏ' | 'Õ' | 'Ọ' | 'Ô' | 'Ố' | 'Ộ'
        | 'Ồ' | 'Ổ' | 'Ỗ' | 'Ơ' | 'Ớ' | 'Ợ' | 'Ờ' | 'Ở' | 'Ỡ' | 'Ù' | 'Ú' | 'Ủ'
        | 'Ũ' | 'Ụ' | 'Ư' | 'Ứ' | 'Ự' | 'Ừ' | 'Ử' | 'Ữ' | 'Ỳ' | 'Ý' | 'Ỷ' | 'Ỹ'
        | 'Ỵ' | 'Đ'
    )
}

/// Whether `s` holds a Vietnamese-specific letter.
pub open spec fn has_vietnamese_letter(s: Seq<char>) -> bool {
    exists|i: int| 0 <= i < s.len() && is_vietnamese_letter(#[trigger] s[i])
}

/// The language detected in a text: Vietnamese when a Vietnamese-specific
/// letter is found, English otherwise.
pub open spec fn detected_language(s: Seq<char>) -> Language {
    if has_vietnamese_letter(s) {
        Language::Vietnamese
    } else {
        Language::English
    }
}

/// The language that a request is spoken in under a language mode.
pub open spec fn resolved_language(mode: LanguageMode, s: Seq<char>) -> Language {
    match mode {
        LanguageMode::Auto => detected_language(s),
        LanguageMode::English => Language::English,
        LanguageMode::Vietnamese => Language::Vietnamese,
    }
}

/// The edge-tts (Microsoft Neural) voice of a language and gender.
pub open spec fn edge_voice_name(language: Language, gender: Gender) -> Seq<char> {
    match (language, gender) {
        (Language::English, Gender::Female) => "en-US-JennyNeural"@,
        (Language::English, Gender::Male) => "en-US-GuyNeural"@,
        (Language::Vietnamese, Gender::Female) => "vi-VN-HoaiMyNeural"@,
        (Language::Vietnamese, Gender::Male) => "vi-VN-NamMinhNeural"@,
    }
}

/// The Windows culture name of a language.
pub open spec fn culture_name(language: Language) -> Seq<char> {
    match language {
        Language::English => "en-US"@,
        Language::Vietnamese => "vi-VN"@,
    }
}

impl Language {
    /// Windows culture name used to pick an installed voice.
    pub fn windows_culture(self) -> (res: &'static str)
        ensures
            res@ == culture_name(self),
    {
        match self {
            Language::English => "en-US",
            Language::Vietnamese => "vi-VN",
        }
    }

    /// Voice name hint for Windows `System.Speech`; empty where no hint is given.
    pub fn windows_voice_hint(self, gender: Gender) -> (res: &'static str)
        ensures
            res@ == (match (self, gender) {
                (Language::English, Gender::Female) => "Zira"@,
                (Language::English, Gender::Male) => "David"@,
                (Language::Vietnamese, _) => ""@,
            }),
    {
        match (self, gender) {
            (Language::English, Gender::Female) => "Zira",
            (Language::English, Gender::Male) => "David",
            (Language::Vietnamese, _) => "",
        }
    }

    /// Voice for the macOS `say` command, where one is chosen.
    pub fn macos_voice(self) -> (res: Option<&'static str>)
        ensures
            match self {
                Language::English => res matches Some(v) && v@ == "Samantha"@,
                Language::Vietnamese => res is None,
            },
    {
        match self {
            Language::English => Some("Samantha"),
            Language::Vietnamese => None,
        }
    }

    /// Voice for Linux `espeak-ng`.
    pub fn espeak_voice(self) -> (res: &'static str)
        ensures
            res@ == (match self {
                Language::English => "en"@,
                Language::Vietnamese => "vi"@,
            }),
    {
        match self {
            Language::English => "en",
            Language::Vietnamese => "vi",
        }
    }

    /// Voice name for edge-tts (Microsoft Neural voices via Python edge-tts package).
    pub fn edge_tts_voice(self, gender: Gender) -> (res: &'static str)
        ensures
            res@ == edge_voice_name(self, gender),
    {
        match (self, gender) {
            (Language::English, Gender::Female) => "en-US-JennyNeural",
            (Language::English, Gender::Male) => "en-US-GuyNeural",
            (Language::Vietnamese, Gender::Female) => "vi-VN-HoaiMyNeural",
            (Language::Vietnamese, Gender::Male) => "vi-VN-NamMinhNeural",
        }
    }

    /// Auto-detect language from text content.
    /// Returns Vietnamese if Vietnamese-specific characters are found, otherwise English.
    pub fn detect(text: &str) -> (res: Language)
        ensures
            res == detected_language(text@),
    {
        let chars = crate::text::chars_of(text);
        let n: usize = chars.len();
        let mut i: usize = 0;
        while i < n
            invariant
                n == chars@.len(),
                chars@ == text@,
                i <= n,
                forall|j: int| 0 <= j < i ==> !is_vietnamese_letter(#[trigger] chars@[j]),
            decreases n - i,
        {
            if is_vietnamese_char(chars[i]) {
                return Language::Vietnamese;
            }
            i = i + 1;
        }
        Language::English
    }
}

/// The language a request is spoken in: the detected one in `Auto` mode, else the chosen one.
pub fn resolve_language(mode: LanguageMode, text: &str) -> (res: Language)
    ensures
        res == resolved_language(mode, text@),
{
    match mode {
        LanguageMode::Auto => Language::detect(text),
        LanguageMode::English => Language::English,
        LanguageMode::Vietnamese => Language::Vietnamese,
    }
}

/// A text without Vietnamese-specific letters is detected as English.
pub proof fn law_no_vietnamese_letters_means_english(s: Seq<char>)
    requires
        forall|i: int| 0 <= i < s.len() ==> !is_vietnamese_letter(#[trigger] s[i]),
    ensures
        detected_language(s) == Language::English,
{
}

/// A text with one Vietnamese-specific letter anywhere is detected as Vietnamese.
pub proof fn law_one_vietnamese_letter_means_vietnamese(s: Seq<char>, i: int)
    requires
        0 <= i < s.len(),
        is_vietnamese_letter(s[i]),
    ensures
        detected_language(s) == Language::Vietnamese,
{
}

/// The letters that mark a text as Vietnamese: every vowel with a Vietnamese
/// tone mark or with a breve, circumflex or horn (`ă â ê ô ơ ư` and their toned
/// forms), and `đ`, in both cases. Each of them is a Vietnamese-specific letter,
/// so any text holding one of them anywhere is detected as Vietnamese.
pub proof fn law_vietnamese_diacritic_letters(s: Seq<char>, i: int)
    requires
        0 <= i < s.len(),
        ({
            let c = s[i];
            c == 'à' || c == 'á' || c == 'ả' || c == 'ã' || c == 'ạ'
            || c == 'ă' || c == 'ắ' || c == 'ặ' || c == 'ằ' || c == 'ẳ' || c == 'ẵ'
            || c == 'â' || c == 'ấ' || c == 'ậ' || c == 'ầ' || c == 'ẩ' || c == 'ẫ'
            || c == 'è' || c == 'é' || c == 'ẻ' || c == 'ẽ' || c == 'ẹ'
            || c == 'ê' || c == 'ế' || c == 'ệ' || c == 'ề' || c == 'ể' || c == 'ễ'
            || c == 'ì' || c == 'í' || c == 'ỉ' || c == 'ĩ' || c == 'ị'
            || c == 'ò' || c == 'ó' || c == 'ỏ' || c == 'õ' || c == 'ọ'
            || c == 'ô' || c == 'ố' || c == 'ộ' || c == 'ồ' || c == 'ổ' || c == 'ỗ'
            || c == 'ơ' || c == 'ớ' || c == 'ợ' || c == 'ờ' || c == 'ở' || c == 'ỡ'
            || c == 'ù' || c == 'ú' || c == 'ủ' || c == 'ũ' || c == 'ụ'
            || c == 'ư' || c == 'ứ' || c == 'ự' || c == 'ừ' || c == 'ử' || c == 'ữ'
            || c == 'ỳ' || c == 'ý' || c == 'ỷ' || c == 'ỹ' || c == 'ỵ'
            || c == 'đ'
            || c == 'À' || c == 'Á' || c == 'Ả' || c == 'Ã' || c == 'Ạ'
            || c == 'Ă' || c == 'Ắ' || c == 'Ặ' || c == 'Ằ' || c == 'Ẳ' || c == 'Ẵ'
            || c == 'Â' || c == 'Ấ' || c == 'Ậ' || c == 'Ầ' || c == 'Ẩ' || c == 'Ẫ'
            || c == 'È' || c == 'É' || c == 'Ẻ' || c == 'Ẽ' || c == 'Ẹ'
            || c == 'Ê' || c == 'Ế' || c == 'Ệ' || c == 'Ề' || c == 'Ể' || c == 'Ễ'
            || c == 'Ì' || c == 'Í' || c == 'Ỉ' || c == 'Ĩ' || c == 'Ị'
            || c == 'Ò' || c == 'Ó' || c == 'Ỏ' || c == 'Õ' || c == 'Ọ'
            || c == 'Ô' || c == 'Ố' || c == 'Ộ' || c == 'Ồ' || c == 'Ổ' || c == 'Ỗ'
            || c == 'Ơ' || c == 'Ớ' || c == 'Ợ' || c == 'Ờ' || c == 'Ở' || c == 'Ỡ'
            || c == 'Ù' || c == 'Ú' || c == 'Ủ' || c == 'Ũ' || c == 'Ụ'
            || c == 'Ư' || c == 'Ứ' || c == 'Ự' || c == 'Ừ' || c == 'Ử' || c == 'Ữ'
            || c == 'Ỳ' || c == 'Ý' || c == 'Ỷ' || c == 'Ỹ' || c == 'Ỵ'
            || c == 'Đ'
        }),
    ensures
        is_vietnamese_letter(s[i]),
        detected_language(s) == Language::Vietnamese,
{
}

/// Detection depends only on which characters a text holds, not on their
/// order or number: two texts with the same characters are detected alike.
pub proof fn law_detection_depends_on_characters_only(s: Seq<char>, t: Seq<char>)
    requires
        forall|c: char| s.contains(c) <==> t.contains(c),
    ensures
        detected_language(s) == detected_language(t),
{
    if has_vietnamese_letter(s) {
        let i: int = choose|i: int| 0 <= i < s.len() && is_vietnamese_letter(#[trigger] s[i]);
        assert(s.contains(s[i]));
        assert(t.contains(s[i]));
    }
    if has_vietnamese_letter(t) {
        let i: int = choose|i: int| 0 <= i < t.len() && is_vietnamese_letter(#[trigger] t[i]);
        assert(t.contains(t[i]));
        assert(s.contains(t[i]));
    }
}

/// A joined text is Vietnamese exactly when one of its parts is, whichever
/// comes first: adding text without Vietnamese-specific letters keeps the
/// detected language, and adding a Vietnamese-specific letter makes it Vietnamese.
pub proof fn law_detection_of_joined_text(s: Seq<char>, t: Seq<char>)
    ensures
        (detected_language(s + t) == Language::Vietnamese) <==> (detected_language(s) == Language::Vietnamese
            || detected_language(t) == Language::Vietnamese),
        detected_language(s + t) == detected_language(t + s),
{
    if has_vietnamese_letter(s) {
        let i: int = choose|i: int| 0 <= i < s.len() && is_vietnamese_letter(#[trigger] s[i]);
        assert((s + t)[i] == s[i]);
        assert((t + s)[t.len() + i] == s[i]);
    }
    if has_vietnamese_letter(t) {
        let i: int = choose|i: int| 0 <= i < t.len() && is_vietnamese_letter(#[trigger] t[i]);
        assert((s + t)[s.len() + i] == t[i]);
        assert((t + s)[i] == t[i]);
    }
    if has_vietnamese_letter(s + t) {
        let i: int = choose|i: int| 0 <= i < (s + t).len() && is_vietnamese_letter(#[trigger] (s + t)[i]);
        if i < s.len() {
            assert(s[i] == (s + t)[i]);
        } else {
            assert(t[i - s.len()] == (s + t)[i]);
        }
    }
    if has_vietnamese_letter(t + s) {
        let i: int = choose|i: int| 0 <= i < (t + s).len() && is_vietnamese_letter(#[trigger] (t + s)[i]);
        if i < t.len() {
            assert(t[i] == (t + s)[i]);
        } else {
            assert(s[i - t.len()] == (t + s)[i]);
        }
    }
}

/// The Vietnamese-specific letters all lie outside ASCII, so ASCII text is English.
pub proof fn law_vietnamese_letters_are_not_ascii(c: char)
    requires
        is_vietnamese_letter(c),
    ensures
        c as u32 > 0x7f,
{
}

/// Every edge-tts voice begins with the Windows culture name of its language,
/// and the four language and gender pairs have four different voices.
pub proof fn law_edge_voices_follow_culture(l1: Language, g1: Gender, l2: Language, g2: Gender)
    ensures
        edge_voice_name(l1, g1).subrange(0, culture_name(l1).len() as int) == culture_name(l1),
        (l1, g1) != (l2, g2) ==> edge_voice_name(l1, g1) != edge_voice_name(l2, g2),
{
    reveal_strlit("en-US-JennyNeural");
    reveal_strlit("en-US-GuyNeural");
    reveal_strlit("vi-VN-HoaiMyNeural");
    reveal_strlit("vi-VN-NamMinhNeural");
    reveal_strlit("en-US");
    reveal_strlit("vi-VN");
    assert("en-US-JennyNeural"@.subrange(0, 5) =~= "en-US"@);
    assert("en-US-GuyNeural"@.subrange(0, 5) =~= "en-US"@);
    assert("vi-VN-HoaiMyNeural"@.subrange(0, 5) =~= "vi-VN"@);
    assert("vi-VN-NamMinhNeural"@.subrange(0, 5) =~= "vi-VN"@);
    assert("en-US-JennyNeural"@.len() != "en-US-GuyNeural"@.len());
    assert("vi-VN-HoaiMyNeural"@.len() != "vi-VN-NamMinhNeural"@.len());
    assert("en-US-JennyNeural"@[0] != "vi-VN-HoaiMyNeural"@[0]);
}

} // verus!
