//! The global hotkeys: Ctrl+Shift+T speaks the selection, Ctrl+Shift+G translates it.
use vstd::prelude::*;
use global_hotkey::hotkey::{Code, HotKey, Modifiers};
use global_hotkey::GlobalHotKeyManager;

verus! {

#[verifier::external_type_specification]
#[verifier::external_body]
pub struct ExHotKey(HotKey);

#[verifier::external_type_specification]
#[verifier::external_body]
pub struct ExGlobalHotKeyManager(GlobalHotKeyManager);

/// The keys that the application binds.
#[derive(Debug, Clone, Copy, PartialEq, Eq, Structural)]
pub enum BoundKey {
    T,
    G,
}

/// Modifier bit of the Control key.
pub const MODIFIER_CONTROL: u32 = 0x8;

/// Modifier bit of the Shift key.
pub const MODIFIER_SHIFT: u32 = 0x200;

/// Modifier bit of the Meta key.
pub const MODIFIER_META: u32 = 0x40;

/// Modifier bit of the legacy Super key, which hotkeys treat as Meta.
pub const MODIFIER_SUPER: u32 = 0x2000;

/// The modifiers of both hotkeys: Control and Shift.
pub const HOTKEY_MODIFIERS: u32 = 0x208;

/// The position of a bound key in the list of key codes (`Code::KeyT`, `Code::KeyG`).
pub open spec fn key_code(key: BoundKey) -> u32 {
    match key {
        BoundKey::T => 38,
        BoundKey::G => 25,
    }
}

/// The modifiers a hotkey keeps: Super is replaced by Meta.
pub open spec fn effective_modifiers(bits: u32) -> u32 {
    if bits & MODIFIER_SUPER != 0 {
        (bits & !MODIFIER_SUPER) | MODIFIER_META
    } else {
        bits
    }
}

/// The id of the hotkey made of some modifiers and a key: the modifier bits
/// above bit 16, the key code below.
pub open spec fn hotkey_id(bits: u32, key: BoundKey) -> u32 {
    (effective_modifiers(bits) << 16u32) | key_code(key)
}

/// The hotkey that `HotKey::new` makes of some modifier bits and a bound key.
/// `HotKey::new` reads nothing but its arguments, so the same arguments give
/// the same hotkey.
pub uninterp spec fn hotkey_made(modifiers: u32, key: BoundKey) -> HotKey;

/// Calls `HotKey::new` on the modifier bits and the key, and gives the hotkey
/// with its `id` field. The contract claims what the source of `global_hotkey`
/// 0.9 computes: the hotkey is the one made of these modifiers and this key
/// (`hotkey_made`), and its id is the modifier bits (Super turned into Meta)
/// shifted left by 16, or'ed with the key's position in `Code`. What else the
/// hotkey holds (its `mods` and `key` fields) is not stated beyond the name.
#[verifier::external_body]
fn new_hotkey(modifiers: u32, key: BoundKey) -> (res: (HotKey, u32))
    ensures
        res.0 == hotkey_made(modifiers, key),
        res.1 == hotkey_id(modifiers, key),
{
    let code = match key {
        BoundKey::T => Code::KeyT,
        BoundKey::G => Code::KeyG,
    };
    let hotkey = HotKey::new(Some(Modifiers::from_bits_retain(modifiers)), code);
    (hotkey, hotkey.id)
}

/// Two hotkeys with the same modifiers and different bound keys never share an
/// id, so a hotkey event names one command only.
pub proof fn law_bound_keys_have_distinct_ids(bits: u32)
    ensures
        hotkey_id(bits, BoundKey::T) != hotkey_id(bits, BoundKey::G),
{
    let m: u32 = effective_modifiers(bits);
    assert(((m << 16u32) | 38u32) != ((m << 16u32) | 25u32)) by (bit_vector);
}

/// What a hotkey press asks for.
#[derive(Debug, Clone, Copy, PartialEq, Eq, Structural)]
pub enum HotkeyCommand {
    /// Speak the selected text, or stop the speech in progress.
    Speak,
    /// Translate the selected text in a popup.
    Translate,
}

/// The two hotkeys of the application with their ids.
pub struct HotkeyBindings {
    pub speak: HotKey,
    pub speak_id: u32,
    pub translate: HotKey,
    pub translate_id: u32,
}

/// The hotkeys Ctrl+Shift+T (speak) and Ctrl+Shift+G (translate).
pub fn default_bindings() -> (res: HotkeyBindings)
    ensures
        res.speak == hotkey_made(HOTKEY_MODIFIERS, BoundKey::T),
        res.translate == hotkey_made(HOTKEY_MODIFIERS, BoundKey::G),
        res.speak_id == hotkey_id(HOTKEY_MODIFIERS, BoundKey::T),
        res.translate_id == hotkey_id(HOTKEY_MODIFIERS, BoundKey::G),
        res.speak_id != res.translate_id,
{
    let (speak, speak_id) = new_hotkey(HOTKEY_MODIFIERS, BoundKey::T);
    let (translate, translate_id) = new_hotkey(HOTKEY_MODIFIERS, BoundKey::G);
    proof {
        law_bound_keys_have_distinct_ids(HOTKEY_MODIFIERS);
    }
    HotkeyBindings { speak, speak_id, translate, translate_id }
}

/// The command of a hotkey event: a release of one of the two bound hotkeys.
pub open spec fn command_of(speak_id: u32, translate_id: u32, event_id: u32, released: bool) -> Option<HotkeyCommand> {
    if event_id == speak_id && released {
        Some(HotkeyCommand::Speak)
    } else if event_id == translate_id && released {
        Some(HotkeyCommand::Translate)
    } else {
        None
    }
}

/// The registered hotkeys, kept alive with the manager that registered them.
pub struct HotkeyRegistration {
    manager: GlobalHotKeyManager,
    bindings: HotkeyBindings,
}

impl HotkeyRegistration {
    /// The registration of `bindings` with `manager`.
    pub fn new(manager: GlobalHotKeyManager, bindings: HotkeyBindings) -> (res: Self)
        ensures
            res.speak_id() == bindings.speak_id,
            res.translate_id() == bindings.translate_id,
            res.registered_manager() == manager,
    {
        HotkeyRegistration { manager, bindings }
    }

    /// The manager that holds the registration.
    pub closed spec fn registered_manager(&self) -> GlobalHotKeyManager {
        self.manager
    }

    /// Id of the speak hotkey.
    pub closed spec fn speak_id(&self) -> u32 {
        self.bindings.speak_id
    }

    /// Id of the translate hotkey.
    pub closed spec fn translate_id(&self) -> u32 {
        self.bindings.translate_id
    }

    /// Id of the speak hotkey.
    pub fn id(&self) -> (res: u32)
        ensures
            res == self.speak_id(),
    {
        self.bindings.speak_id
    }

    /// Id of the translate hotkey.
    pub fn translate_hotkey_id(&self) -> (res: u32)
        ensures
            res == self.translate_id(),
    {
        self.bindings.translate_id
    }

    /// The manager that holds the registration.
    pub fn manager(&self) -> (res: &GlobalHotKeyManager)
        ensures
            *res == self.registered_manager(),
    {
        &self.manager
    }

    /// The command of a hotkey event with this id, on release; none for a press
    /// or for another hotkey.
    pub fn command_for(&self, event_id: u32, released: bool) -> (res: Option<HotkeyCommand>)
        ensures
            res == command_of(self.speak_id(), self.translate_id(), event_id, released),
    {
        if event_id == self.bindings.speak_id && released {
            Some(HotkeyCommand::Speak)
        } else if event_id == self.bindings.translate_id && released {
            Some(HotkeyCommand::Translate)
        } else {
            None
        }
    }
}

/// With two distinct hotkey ids, releasing the speak hotkey asks for speech,
/// releasing the translate hotkey asks for a translation, and pressing a key
/// down, or releasing any other hotkey, asks for nothing.
pub proof fn law_hotkey_release_commands(speak_id: u32, translate_id: u32, event_id: u32)
    requires
        speak_id != translate_id,
    ensures
        command_of(speak_id, translate_id, speak_id, true) == Some(HotkeyCommand::Speak),
        command_of(speak_id, translate_id, translate_id, true) == Some(HotkeyCommand::Translate),
        command_of(speak_id, translate_id, event_id, false) is None,
        event_id != speak_id && event_id != translate_id ==> command_of(speak_id, translate_id, event_id, true)
            is None,
{
}

} // verus!
