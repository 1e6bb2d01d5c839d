use speekr::clipboard::{
    copied_text, copy_outcome, copy_unsupported, selection_result, sentinel_text, sentinel_text_at,
    ClipboardReadError, CopyPlatform,
};

#[test]
fn sentinel_text_format() {
    assert_eq!(sentinel_text_at(1234), "__speekr_clipboard_probe_1234__");
    let s = sentinel_text();
    assert!(s.starts_with("__speekr_clipboard_probe_") && s.ends_with("__"));
}

#[test]
fn copied_text_ignores_sentinel() {
    assert_eq!(copied_text(Some("probe".to_owned()), "probe"), None);
    assert_eq!(copied_text(Some("hello".to_owned()), "probe"), Some("hello".to_owned()));
    assert_eq!(copied_text(None, "probe"), None);
}

#[test]
fn selection_result_trims_and_rejects_blank() {
    assert_eq!(selection_result(Some("  hello\n".to_owned())), Ok("hello".to_owned()));
    assert_eq!(selection_result(Some(" \t ".to_owned())), Err(ClipboardReadError::EmptySelection));
    assert_eq!(selection_result(None), Err(ClipboardReadError::EmptySelection));
}

#[test]
fn copy_outcomes() {
    assert_eq!(copy_outcome(CopyPlatform::Linux, Ok((true, "exit status: 0".to_owned()))), Ok(()));
    assert_eq!(copy_outcome(CopyPlatform::Linux, Ok((false, "exit status: 127".to_owned()))),
        Err(ClipboardReadError::CopyCommand(
            "install xdotool for X11 or wtype for Wayland to copy selected text".to_owned())));
    assert_eq!(copy_outcome(CopyPlatform::Windows, Ok((false, "exit code: 1".to_owned()))),
        Err(ClipboardReadError::CopyCommand("PowerShell SendKeys exited with exit code: 1".to_owned())));
    assert_eq!(copy_outcome(CopyPlatform::MacOs, Ok((false, "exit status: 1".to_owned()))),
        Err(ClipboardReadError::CopyCommand("osascript copy exited with exit status: 1".to_owned())));
    assert_eq!(copy_outcome(CopyPlatform::MacOs, Err("not found".to_owned())),
        Err(ClipboardReadError::CopyCommand("not found".to_owned())));
    assert_eq!(copy_unsupported(),
        Err(ClipboardReadError::CopyCommand("automatic copy is not implemented for this OS".to_owned())));
}

#[test]
fn clipboard_error_messages() {
    assert_eq!(ClipboardReadError::Clipboard("busy".to_owned()).message(), "clipboard error: busy");
    assert_eq!(ClipboardReadError::CopyCommand("x".to_owned()).message(), "failed to trigger copy command: x");
    assert_eq!(ClipboardReadError::EmptySelection.message(), "no selected text was copied");
}
