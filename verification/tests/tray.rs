use speekr::language::{Gender, LanguageMode};
use speekr::tray::{
    build_icon, icon_rgba, language_mode_checks, menu_layout, voice_checks, MenuCommand, MenuEntry, MenuIds,
};

fn ids() -> MenuIds {
    MenuIds {
        quit: "10".to_owned(),
        cancel: "9".to_owned(),
        voice_female: "1".to_owned(),
        voice_male: "2".to_owned(),
        lang_auto: "4".to_owned(),
        lang_english: "5".to_owned(),
        lang_vietnamese: "6".to_owned(),
    }
}

#[test]
fn menu_ids_map_to_commands() {
    let ids = ids();
    assert_eq!(ids.command_for("10"), Some(MenuCommand::Quit));
    assert_eq!(ids.command_for("9"), Some(MenuCommand::Cancel));
    assert_eq!(ids.command_for("1"), Some(MenuCommand::VoiceFemale));
    assert_eq!(ids.command_for("2"), Some(MenuCommand::VoiceMale));
    assert_eq!(ids.command_for("4"), Some(MenuCommand::LangAuto));
    assert_eq!(ids.command_for("5"), Some(MenuCommand::LangEnglish));
    assert_eq!(ids.command_for("6"), Some(MenuCommand::LangVietnamese));
    assert_eq!(ids.command_for("3"), None);
}

#[test]
fn one_check_mark_per_group() {
    assert_eq!(voice_checks(Gender::Female), (true, false));
    assert_eq!(voice_checks(Gender::Male), (false, true));
    assert_eq!(language_mode_checks(LanguageMode::Auto), (true, false, false));
    assert_eq!(language_mode_checks(LanguageMode::English), (false, true, false));
    assert_eq!(language_mode_checks(LanguageMode::Vietnamese), (false, false, true));
}

#[test]
fn menu_layout_matches_readme() {
    let layout = menu_layout();
    assert_eq!(layout.len(), 10);
    let labels: Vec<String> = layout
        .iter()
        .map(|e| match e {
            MenuEntry::Check { label, checked, .. } => format!("{}{}", if *checked { "[x] " } else { "[ ] " }, label),
            MenuEntry::Item { label, enabled, .. } => format!("{}{}", if *enabled { "" } else { "(off) " }, label),
            MenuEntry::Separator => "---".to_owned(),
        })
        .collect();
    assert_eq!(labels, vec![
        "[x] Voice: Female",
        "[ ] Voice: Male",
        "---",
        "[x] Lang: Auto-detect",
        "[ ] Lang: English",
        "[ ] Lang: Vietnamese",
        "---",
        "(off) Cancel current speech",
        "---",
        "Quit",
    ]);
}

fn pixel(rgba: &[u8], x: usize, y: usize) -> [u8; 4] {
    let i = (y * 32 + x) * 4;
    [rgba[i], rgba[i + 1], rgba[i + 2], rgba[i + 3]]
}

#[test]
fn icon_pixels() {
    let rgba = icon_rgba();
    assert_eq!(rgba.len(), 4096);
    assert_eq!(pixel(&rgba, 0, 0), [0, 0, 0, 0]);
    assert_eq!(pixel(&rgba, 31, 31), [0, 0, 0, 0]);
    assert_eq!(pixel(&rgba, 15, 10), [36, 110, 185, 255]);
    assert_eq!(pixel(&rgba, 15, 25), [36, 110, 185, 255]);
    assert_eq!(pixel(&rgba, 13, 7), [235, 245, 255, 220]);
    assert_eq!(pixel(&rgba, 14, 14), [235, 245, 255, 220]);
    assert_eq!(pixel(&rgba, 9, 13), [36, 110, 185, 255]);
    assert_eq!(pixel(&rgba, 8, 13), [0, 0, 0, 0]);
    let opaque = rgba.chunks(4).filter(|p| p[3] != 0).count();
    assert!(opaque > 100);
}

#[test]
fn icon_is_accepted_by_tray_icon() {
    assert!(build_icon().is_ok());
}

#[test]
fn menu_entries_have_the_right_kind() {
    for entry in menu_layout() {
        match entry {
            MenuEntry::Check { command, .. } => {
                assert!(command != MenuCommand::Quit && command != MenuCommand::Cancel)
            }
            MenuEntry::Item { command, .. } => {
                assert!(command == MenuCommand::Quit || command == MenuCommand::Cancel)
            }
            MenuEntry::Separator => {}
        }
    }
}

#[test]
fn fixed_menu_ids_give_their_commands() {
    let ids = speekr::tray::menu_ids();
    for command in [
        MenuCommand::Quit,
        MenuCommand::Cancel,
        MenuCommand::VoiceFemale,
        MenuCommand::VoiceMale,
        MenuCommand::LangAuto,
        MenuCommand::LangEnglish,
        MenuCommand::LangVietnamese,
    ] {
        assert_eq!(ids.command_for(ids.id_of_command(command)), Some(command));
    }
    assert_eq!(ids.quit, "quit");
}
