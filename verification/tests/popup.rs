use speekr::clipboard::ClipboardReadError;
use speekr::popup::{escape_html, popup_for_translation, popup_for_unreadable_selection, render_html, PopupContent};
use speekr::translate::TranslateError;

#[test]
fn escape_html_replaces_the_five_characters() {
    assert_eq!(escape_html("<a href=\"x\">Tom & Jerry's</a>"),
        "&lt;a href=&quot;x&quot;&gt;Tom &amp; Jerry&#39;s&lt;/a&gt;");
}

#[test]
fn escape_html_leaves_plain_text() {
    assert_eq!(escape_html("Xin chào bạn"), "Xin chào bạn");
    assert_eq!(escape_html(""), "");
}

#[test]
fn escape_html_escapes_existing_entities() {
    assert_eq!(escape_html("&amp;"), "&amp;amp;");
}

#[test]
fn escaped_text_has_no_markup() {
    let out = escape_html("<<>>\"\"''&&");
    assert!(!out.contains('<') && !out.contains('>') && !out.contains('"') && !out.contains('\''));
}

#[test]
fn render_html_places_escaped_texts() {
    let content = PopupContent {
        source_language: "auto".to_owned(),
        target_language: "vi".to_owned(),
        original: "a < b".to_owned(),
        translated: "a nhỏ hơn b".to_owned(),
    };
    let html = render_html(&content);
    assert!(html.starts_with("<!doctype html>"));
    assert!(html.contains("Translate? auto -> vi</div>"));
    assert!(html.contains("<div class=\"text\">a &lt; b</div>"));
    assert!(html.contains("<div class=\"text translated\">a nhỏ hơn b</div>"));
    assert!(html.ends_with("</body>\n</html>"));
    assert!(html.contains("html, body {\n  margin: 0;"));
}

#[test]
fn popup_for_failed_read() {
    let content = popup_for_unreadable_selection(&ClipboardReadError::EmptySelection);
    assert_eq!(content.source_language, "auto");
    assert_eq!(content.target_language, "vi");
    assert_eq!(content.original, "");
    assert_eq!(content.translated, "Cannot read selected text: no selected text was copied");
}

#[test]
fn popup_for_translation_outcomes() {
    let ok = popup_for_translation("hello".to_owned(), Ok("xin chào".to_owned()));
    assert_eq!(ok.original, "hello");
    assert_eq!(ok.translated, "xin chào");
    let err = popup_for_translation("hello".to_owned(), Err(TranslateError::MissingArgos));
    assert_eq!(err.translated,
        "Google translation unavailable: argos-translate is not installed or not on PATH");
}

#[test]
fn escape_html_works_per_part() {
    let a = "Tom & <b>";
    let b = "\"Jerry's\"";
    assert_eq!(escape_html(&format!("{a}{b}")), format!("{}{}", escape_html(a), escape_html(b)));
}

fn read_back(html: &str) -> String {
    let mut out = String::new();
    let mut rest = html;
    while let Some(c) = rest.chars().next() {
        let entities = [("&amp;", '&'), ("&lt;", '<'), ("&gt;", '>'), ("&quot;", '"'), ("&#39;", '\'')];
        if let Some((entity, ch)) = entities.iter().find(|(e, _)| rest.starts_with(e)) {
            out.push(*ch);
            rest = &rest[entity.len()..];
        } else {
            out.push(c);
            rest = &rest[c.len_utf8()..];
        }
    }
    out
}

#[test]
fn escaped_text_reads_back() {
    for s in ["&lt;", "a&b<c>d\"e'f", "&amp;amp;", "Xin chào & tạm biệt", ""] {
        assert_eq!(read_back(&escape_html(s)), s);
    }
}
