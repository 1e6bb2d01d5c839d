//! Verified core of speekr, a tray application that reads selected text aloud
//! and shows a translation popup.
pub mod text;
pub mod language;
pub mod popup;
pub mod hotkey;
pub mod tray;
pub mod controller;
pub mod clock;
pub mod clipboard;
pub mod translate;
pub mod tts;
