//! The translation popup's page: HTML escaping and the page around the texts.
use vstd::prelude::*;
use crate::clipboard::{clipboard_error_message, ClipboardReadError};
use crate::text::push_char;
use crate::translate::{translate_error_message, TranslateError};

verus! {

/// What the translation popup shows.
#[derive(Debug, Clone)]
pub struct PopupContent {
    pub source_language: String,
    pub target_language: String,
    pub original: String,
    pub translated: String,
}

/// Page text before the source language.
pub const PAGE_HEAD: &'static str = "<!doctype html>
<html>
<head>
<meta charset=\"utf-8\">
<style>
html, body {
  margin: 0;
  width: 100%;
  min-height: 100%;
  font-family: \"Segoe UI\", system-ui, -apple-system, BlinkMacSystemFont, sans-serif;
  background: #f8fafc;
  color: #1f2937;
}
body {
  box-sizing: border-box;
  padding: 14px;
  border: 1px solid #94a3b8;
}
.top {
  display: flex;
  justify-content: space-between;
  align-items: center;
  gap: 12px;
  margin-bottom: 10px;
}
.question {
  font-size: 13px;
  font-weight: 650;
  color: #0f766e;
}
button {
  border: 0;
  background: #e2e8f0;
  color: #334155;
  width: 28px;
  height: 28px;
  border-radius: 6px;
  font-size: 18px;
  line-height: 1;
}
.label {
  margin: 12px 0 4px;
  font-size: 11px;
  color: #64748b;
  text-transform: uppercase;
  letter-spacing: .06em;
}
.text {
  font-size: 14px;
  line-height: 1.45;
  white-space: pre-wrap;
  overflow-wrap: anywhere;
  max-height: 82px;
  overflow: auto;
}
.translated {
  font-size: 16px;
  color: #111827;
}
</style>
</head>
<body>
  <div class=\"top\">
    <div class=\"question\">Translate? ";

/// Page text between the source and the target language.
pub const PAGE_ARROW: &'static str = " -> ";

/// Page text between the target language and the original text.
pub const PAGE_BEFORE_ORIGINAL: &'static str = "</div>
    <button onclick=\"window.ipc.postMessage('close')\" title=\"Close\">&times;</button>
  </div>
  <div class=\"label\">Original</div>
  <div class=\"text\">";

/// Page text between the original text and its translation.
pub const PAGE_BEFORE_TRANSLATION: &'static str = "</div>
  <div class=\"label\">Translation</div>
  <div class=\"text translated\">";

/// Page text after the translation.
pub const PAGE_TAIL: &'static str = "</div>
</body>
</html>";

/// How one character is written in HTML text: the five characters with a
/// meaning in HTML become entities, every other character stays.
pub open spec fn escape_char(c: char) -> Seq<char> {
    if c == '&' {
        "&amp;"@
    } else if c == '<' {
        "&lt;"@
    } else if c == '>' {
        "&gt;"@
    } else if c == '"' {
        "&quot;"@
    } else if c == '\'' {
        "&#39;"@
    } else {
        seq![c]
    }
}

/// A text written for HTML, character by character.
pub open spec fn escaped(s: Seq<char>) -> Seq<char>
    decreases s.len(),
{
    if s.len() == 0 {
        Seq::empty()
    } else {
        escaped(s.drop_last()) + escape_char(s.last())
    }
}

/// Whether a character has a meaning in HTML text or attributes.
pub open spec fn is_html_special(c: char) -> bool {
    c == '&' || c == '<' || c == '>' || c == '"' || c == '\''
}

/// The popup page for its four texts.
pub open spec fn page(source: Seq<char>, target: Seq<char>, original: Seq<char>, translated: Seq<char>) -> Seq<char> {
    PAGE_HEAD@ + escaped(source) + PAGE_ARROW@ + escaped(target) + PAGE_BEFORE_ORIGINAL@ + escaped(original)
        + PAGE_BEFORE_TRANSLATION@ + escaped(translated) + PAGE_TAIL@
}

/// Appends `value` written for HTML to `out`.
fn push_escaped(out: &mut String, value: &str)
    ensures
        final(out)@ == old(out)@ + escaped(value@),
{
    let chars = crate::text::chars_of(value);
    let n: usize = chars.len();
    let ghost start = out@;
    let mut i: usize = 0;
    while i < n
        invariant
            n == chars@.len(),
            i <= n,
            out@ == start + escaped(chars@.take(i as int)),
        decreases n - i,
    {
        let c = chars[i];
        assert(chars@.take(i + 1).drop_last() =~= chars@.take(i as int));
        let ghost before = out@;
        if c == '&' {
            out.append("&amp;");
        } else if c == '<' {
            out.append("&lt;");
        } else if c == '>' {
            out.append("&gt;");
        } else if c == '"' {
            out.append("&quot;");
        } else if c == '\'' {
            out.append("&#39;");
        } else {
            push_char(out, c);
            assert(before.push(c) =~= before + seq![c]);
        }
        assert(start + escaped(chars@.take(i + 1)) =~= start + escaped(chars@.take(i as int)) + escape_char(c));
        i = i + 1;
    }
    assert(chars@.take(n as int) =~= chars@);
}

/// Writes a text for HTML: `&`, `<`, `>`, `"` and `'` become entities.
pub fn escape_html(value: &str) -> (res: String)
    ensures
        res@ == escaped(value@),
{
    let mut out = String::new();
    push_escaped(&mut out, value);
    assert(Seq::<char>::empty() + escaped(value@) =~= escaped(value@));
    out
}

/// The popup page for the given content, each text written for HTML.
pub fn render_html(content: &PopupContent) -> (res: String)
    ensures
        res@ == page(content.source_language@, content.target_language@, content.original@, content.translated@),
{
    let mut out = String::from_str(PAGE_HEAD);
    push_escaped(&mut out, content.source_language.as_str());
    out.append(PAGE_ARROW);
    push_escaped(&mut out, content.target_language.as_str());
    out.append(PAGE_BEFORE_ORIGINAL);
    push_escaped(&mut out, content.original.as_str());
    out.append(PAGE_BEFORE_TRANSLATION);
    push_escaped(&mut out, content.translated.as_str());
    out.append(PAGE_TAIL);
    out
}

/// The popup shown when the selected text could not be read: no original, and
/// the reason in place of the translation.
pub fn popup_for_unreadable_selection(error: &ClipboardReadError) -> (res: PopupContent)
    ensures
        res.source_language@ == "auto"@,
        res.target_language@ == "vi"@,
        res.original@ == Seq::<char>::empty(),
        res.translated@ == "Cannot read selected text: "@ + clipboard_error_message(*error),
{
    let mut translated = String::from_str("Cannot read selected text: ");
    let reason = error.message();
    translated.append(reason.as_str());
    PopupContent {
        source_language: String::from_str("auto"),
        target_language: String::from_str("vi"),
        original: String::new(),
        translated,
    }
}

/// The popup for a selected text and the outcome of its translation into
/// Vietnamese: the translation, or why there is none.
pub fn popup_for_translation(original: String, translation: Result<String, TranslateError>) -> (res: PopupContent)
    ensures
        res.source_language@ == "auto"@,
        res.target_language@ == "vi"@,
        res.original@ == original@,
        res.translated@ == (match translation {
            Ok(t) => t@,
            Err(e) => "Google translation unavailable: "@ + translate_error_message(e),
        }),
{
    let translated = match translation {
        Ok(value) => value,
        Err(error) => {
            let mut s = String::from_str("Google translation unavailable: ");
            let reason = error.message();
            s.append(reason.as_str());
            s
        },
    };
    PopupContent {
        source_language: String::from_str("auto"),
        target_language: String::from_str("vi"),
        original,
        translated,
    }
}

/// Escaping works character by character: escaping a text in two parts and
/// joining the results gives the escaped whole.
pub proof fn law_escape_is_per_character(a: Seq<char>, b: Seq<char>)
    ensures
        escaped(a + b) == escaped(a) + escaped(b),
    decreases b.len(),
{
    if b.len() == 0 {
        assert(a + b =~= a);
        assert(escaped(a) + escaped(b) =~= escaped(a));
    } else {
        law_escape_is_per_character(a, b.drop_last());
        assert((a + b).drop_last() =~= a + b.drop_last());
        assert((a + b).last() == b.last());
        assert(escaped(a) + escaped(b) =~= escaped(a) + escaped(b.drop_last()) + escape_char(b.last()));
    }
}

/// An escaped text holds no `<`, `>`, `"` or `'`, so it cannot open a tag or
/// leave an attribute.
pub proof fn law_escaped_has_no_markup(s: Seq<char>)
    ensures
        forall|k: int| 0 <= k < escaped(s).len() ==> {
            let c = #[trigger] escaped(s)[k];
            c != '<' && c != '>' && c != '"' && c != '\''
        },
    decreases s.len(),
{
    reveal_strlit("&amp;");
    reveal_strlit("&lt;");
    reveal_strlit("&gt;");
    reveal_strlit("&quot;");
    reveal_strlit("&#39;");
    if s.len() > 0 {
        law_escaped_has_no_markup(s.drop_last());
        let e = escape_char(s.last());
        assert forall|k: int| 0 <= k < escaped(s).len() implies {
            let c = #[trigger] escaped(s)[k];
            c != '<' && c != '>' && c != '"' && c != '\''
        } by {
            let prev = escaped(s.drop_last());
            if k >= prev.len() {
                assert(escaped(s)[k] == e[k - prev.len()]);
            } else {
                assert(escaped(s)[k] == prev[k]);
            }
        }
    }
}

/// A text with none of the five HTML-special characters is left as it is.
pub proof fn law_plain_text_unchanged(s: Seq<char>)
    requires
        forall|k: int| 0 <= k < s.len() ==> !is_html_special(#[trigger] s[k]),
    ensures
        escaped(s) == s,
    decreases s.len(),
{
    if s.len() > 0 {
        law_plain_text_unchanged(s.drop_last());
        assert(!is_html_special(s[s.len() - 1]));
        assert(s.drop_last().push(s.last()) =~= s);
        assert(s.drop_last() + seq![s.last()] =~= s);
    }
}

/// A text read back from HTML: the five entities that escaping writes become
/// their characters again, read left to right; every other character stays.
pub open spec fn unescaped(s: Seq<char>) -> Seq<char>
    decreases s.len(),
{
    proof {
        reveal_strlit("&amp;");
        reveal_strlit("&lt;");
        reveal_strlit("&gt;");
        reveal_strlit("&quot;");
        reveal_strlit("&#39;");
    }
    if s.len() == 0 {
        s
    } else if crate::text::has_prefix(s, "&amp;"@) {
        seq!['&'] + unescaped(s.skip(5))
    } else if crate::text::has_prefix(s, "&lt;"@) {
        seq!['<'] + unescaped(s.skip(4))
    } else if crate::text::has_prefix(s, "&gt;"@) {
        seq!['>'] + unescaped(s.skip(4))
    } else if crate::text::has_prefix(s, "&quot;"@) {
        seq!['"'] + unescaped(s.skip(6))
    } else if crate::text::has_prefix(s, "&#39;"@) {
        seq!['\''] + unescaped(s.skip(5))
    } else {
        seq![s[0]] + unescaped(s.skip(1))
    }
}

proof fn lemma_not_prefix_at(s: Seq<char>, p: Seq<char>, k: int)
    requires
        0 <= k < p.len(),
        k < s.len(),
        s[k] != p[k],
    ensures
        !crate::text::has_prefix(s, p),
{
    if p.len() <= s.len() {
        assert(s.subrange(0, p.len() as int)[k] == s[k]);
    }
}

proof fn lemma_unescape_step(c: char, rest: Seq<char>)
    ensures
        unescaped(escape_char(c) + rest) == seq![c] + unescaped(rest),
{
    reveal_strlit("&amp;");
    reveal_strlit("&lt;");
    reveal_strlit("&gt;");
    reveal_strlit("&quot;");
    reveal_strlit("&#39;");
    let e = escape_char(c);
    let s = e + rest;
    assert(s.subrange(0, e.len() as int) =~= e);
    assert(s.skip(e.len() as int) =~= rest);
    assert(s[0] == e[0]);
    if c == '&' {
    } else if c == '<' {
        assert(s[1] == e[1]);
        lemma_not_prefix_at(s, "&amp;"@, 1);
    } else if c == '>' {
        assert(s[1] == e[1]);
        lemma_not_prefix_at(s, "&amp;"@, 1);
        lemma_not_prefix_at(s, "&lt;"@, 1);
    } else if c == '"' {
        assert(s[1] == e[1]);
        lemma_not_prefix_at(s, "&amp;"@, 1);
        lemma_not_prefix_at(s, "&lt;"@, 1);
        lemma_not_prefix_at(s, "&gt;"@, 1);
    } else if c == '\'' {
        assert(s[1] == e[1]);
        lemma_not_prefix_at(s, "&amp;"@, 1);
        lemma_not_prefix_at(s, "&lt;"@, 1);
        lemma_not_prefix_at(s, "&gt;"@, 1);
        lemma_not_prefix_at(s, "&quot;"@, 1);
    } else {
        lemma_not_prefix_at(s, "&amp;"@, 0);
        lemma_not_prefix_at(s, "&lt;"@, 0);
        lemma_not_prefix_at(s, "&gt;"@, 0);
        lemma_not_prefix_at(s, "&quot;"@, 0);
        lemma_not_prefix_at(s, "&#39;"@, 0);
    }
}

/// Reading the escaped text back gives the text: escaping loses nothing.
pub proof fn law_unescape_after_escape(s: Seq<char>)
    ensures
        unescaped(escaped(s)) == s,
    decreases s.len(),
{
    if s.len() > 0 {
        let rest = s.skip(1);
        assert(s =~= seq![s[0]] + rest);
        law_escape_is_per_character(seq![s[0]], rest);
        let one = seq![s[0]];
        assert(one.drop_last() =~= Seq::<char>::empty());
        assert(one.last() == s[0]);
        assert(escaped(one) == escaped(one.drop_last()) + escape_char(one.last()));
        assert(escaped(Seq::<char>::empty()) == Seq::<char>::empty());
        assert(escaped(one) =~= escape_char(s[0]));
        law_unescape_after_escape(rest);
        lemma_unescape_step(s[0], escaped(rest));
    }
}

/// Reading the page back gives the texts: the page ends with the original,
/// the translation marker, the translation and the page tail, and the original
/// and the translation, read back from HTML, are the popup's texts exactly.
/// Each text is written into the page escaped once, neither raw nor twice.
pub proof fn law_page_reads_back(source: Seq<char>, target: Seq<char>, original: Seq<char>, translated: Seq<
    char,
>)
    ensures
        exists|head: Seq<char>, o: Seq<char>, t: Seq<char>|
            page(source, target, original, translated) == head + PAGE_BEFORE_ORIGINAL@ + o
                + PAGE_BEFORE_TRANSLATION@ + t + PAGE_TAIL@ && unescaped(o) == original
                && unescaped(t) == translated,
{
    let head = PAGE_HEAD@ + escaped(source) + PAGE_ARROW@ + escaped(target);
    let o = escaped(original);
    let t = escaped(translated);
    law_unescape_after_escape(original);
    law_unescape_after_escape(translated);
    assert(page(source, target, original, translated) =~= head + PAGE_BEFORE_ORIGINAL@ + o
        + PAGE_BEFORE_TRANSLATION@ + t + PAGE_TAIL@);
}

} // verus!
