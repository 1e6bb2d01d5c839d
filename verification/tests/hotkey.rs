use global_hotkey::hotkey::{Code, HotKey, Modifiers};
use speekr::hotkey::default_bindings;

#[test]
fn hotkey_ids_follow_global_hotkey() {
    let bindings = default_bindings();
    assert_eq!(bindings.speak_id, (0x208 << 16) | 38);
    assert_eq!(bindings.translate_id, (0x208 << 16) | 25);
    assert_eq!(bindings.speak.id(), bindings.speak_id);
    assert_eq!(bindings.translate.key, Code::KeyG);
    assert_ne!(bindings.speak_id, bindings.translate_id);
}

#[test]
fn bindings_hold_the_two_hotkeys() {
    let bindings = default_bindings();
    let mods = Some(Modifiers::CONTROL | Modifiers::SHIFT);
    assert_eq!(bindings.speak, HotKey::new(mods, Code::KeyT));
    assert_eq!(bindings.translate, HotKey::new(mods, Code::KeyG));
    assert_ne!(bindings.speak, bindings.translate);
}
