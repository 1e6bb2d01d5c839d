//! The decisions around reading the selected text through the clipboard: the
//! probe text put there first, which clipboard reads count as a copy, and the
//! result handed back.
use vstd::prelude::*;
use crate::text::{decimal, push_decimal, trim, trimmed};

verus! {

/// Why the selected text could not be read.
#[derive(Debug, Clone, PartialEq, Eq)]
pub enum ClipboardReadError {
    /// The clipboard failed, with its message.
    Clipboard(String),
    /// The copy keystroke could not be sent, with the reason.
    CopyCommand(String),
    /// Nothing but whitespace was copied.
    EmptySelection,
}

/// The message of a clipboard read error.
pub open spec fn clipboard_error_message(e: ClipboardReadError) -> Seq<char> {
    match e {
        ClipboardReadError::Clipboard(m) => "clipboard error: "@ + m@,
        ClipboardReadError::CopyCommand(m) => "failed to trigger copy command: "@ + m@,
        ClipboardReadError::EmptySelection => "no selected text was copied"@,
    }
}

impl ClipboardReadError {
    /// The message shown for this error.
    pub fn message(&self) -> (res: String)
        ensures
            res@ == clipboard_error_message(*self),
    {
        match self {
            ClipboardReadError::Clipboard(m) => {
                let mut s = String::from_str("clipboard error: ");
                s.append(m.as_str());
                s
            },
            ClipboardReadError::CopyCommand(m) => {
                let mut s = String::from_str("failed to trigger copy command: ");
                s.append(m.as_str());
                s
            },
            ClipboardReadError::EmptySelection => String::from_str("no selected text was copied"),
        }
    }
}

/// The probe text put on the clipboard before the copy keystroke, for a clock reading.
pub open spec fn sentinel_for(nanos: nat) -> Seq<char> {
    "__speekr_clipboard_probe_"@ + decimal(nanos) + "__"@
}

/// The probe text for the clock reading `nanos`.
pub fn sentinel_text_at(nanos: u128) -> (res: String)
    ensures
        res@ == sentinel_for(nanos as nat),
{
    let mut s = String::from_str("__speekr_clipboard_probe_");
    push_decimal(&mut s, nanos);
    s.append("__");
    s
}

/// A probe text made from the current time.
pub fn sentinel_text() -> (res: String)
    ensures
        exists|nanos: nat| res@ == sentinel_for(nanos),
{
    let nanos: u128 = crate::clock::unique_id();
    sentinel_text_at(nanos)
}

/// What one read of the clipboard yields while waiting for the copy: the text
/// when it was read and differs from the probe, nothing otherwise.
pub fn copied_text(read: Option<String>, sentinel: &str) -> (res: Option<String>)
    ensures
        res == (match read {
            Some(text) => if text@ != sentinel@ {
                Some(text)
            } else {
                None
            },
            None => None,
        }),
{
    match read {
        Some(text) => {
            if crate::text::same_text(text.as_str(), sentinel) {
                None
            } else {
                Some(text)
            }
        },
        None => None,
    }
}

/// The selected text from what was copied: trimmed, and an error when nothing
/// or only whitespace was copied.
pub fn selection_result(copied: Option<String>) -> (res: Result<String, ClipboardReadError>)
    ensures
        ({
            let text = match copied {
                Some(t) => trimmed(t@),
                None => Seq::<char>::empty(),
            };
            &&& text.len() == 0 ==> res == Err::<String, ClipboardReadError>(ClipboardReadError::EmptySelection)
            &&& text.len() > 0 ==> (res matches Ok(t) && t@ == text)
        }),
{
    let text = match copied {
        Some(t) => trim(t.as_str()),
        None => String::new(),
    };
    if text.as_str().unicode_len() == 0 {
        Err(ClipboardReadError::EmptySelection)
    } else {
        Ok(text)
    }
}

/// The system where the copy keystroke is sent.
#[derive(Debug, Clone, Copy, PartialEq, Eq, Structural)]
pub enum CopyPlatform {
    /// PowerShell `SendKeys`.
    Windows,
    /// `osascript` keystroke.
    MacOs,
    /// `xdotool` or `wtype`.
    Linux,
}

/// Why the copy keystroke failed on a platform, for the status the command exited with.
pub open spec fn copy_failure_text(platform: CopyPlatform, status: Seq<char>) -> Seq<char> {
    match platform {
        CopyPlatform::Windows => "PowerShell SendKeys exited with "@ + status,
        CopyPlatform::MacOs => "osascript copy exited with "@ + status,
        CopyPlatform::Linux => "install xdotool for X11 or wtype for Wayland to copy selected text"@,
    }
}

/// The result of sending the copy keystroke: `launched` is the command's
/// success and exit status, or why it could not be run.
pub fn copy_outcome(platform: CopyPlatform, launched: Result<(bool, String), String>) -> (res: Result<
    (),
    ClipboardReadError,
>)
    ensures
        match launched {
            Err(m) => res == Err::<(), ClipboardReadError>(ClipboardReadError::CopyCommand(m)),
            Ok((success, status)) => if success {
                res is Ok
            } else {
                res matches Err(ClipboardReadError::CopyCommand(m)) && m@ == copy_failure_text(platform, status@)
            },
        },
{
    match launched {
        Err(m) => Err(ClipboardReadError::CopyCommand(m)),
        Ok((success, status)) => {
            if success {
                Ok(())
            } else {
                let m = match platform {
                    CopyPlatform::Windows => {
                        let mut m = String::from_str("PowerShell SendKeys exited with ");
                        m.append(status.as_str());
                        m
                    },
                    CopyPlatform::MacOs => {
                        let mut m = String::from_str("osascript copy exited with ");
                        m.append(status.as_str());
                        m
                    },
                    CopyPlatform::Linux => String::from_str(
                        "install xdotool for X11 or wtype for Wayland to copy selected text",
                    ),
                };
                Err(ClipboardReadError::CopyCommand(m))
            }
        },
    }
}

/// Sending the copy keystroke on a system without a way to send it.
pub fn copy_unsupported() -> (res: Result<(), ClipboardReadError>)
    ensures
        res matches Err(ClipboardReadError::CopyCommand(m)) && m@ == "automatic copy is not implemented for this OS"@,
{
    Err(ClipboardReadError::CopyCommand(String::from_str("automatic copy is not implemented for this OS")))
}

/// Every probe text begins with `__speekr_clipboard_probe_` and ends with `__`.
pub proof fn law_sentinel_shape(nanos: nat)
    ensures
        crate::text::has_prefix(sentinel_for(nanos), "__speekr_clipboard_probe_"@),
        crate::text::has_suffix(sentinel_for(nanos), "__"@),
{
    let s = sentinel_for(nanos);
    let p = "__speekr_clipboard_probe_"@;
    let d = decimal(nanos);
    assert(s.subrange(0, p.len() as int) =~= p);
    assert(s.subrange(s.len() - "__"@.len(), s.len() as int) =~= "__"@);
}

} // verus!
