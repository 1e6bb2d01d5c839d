//! The tray menu's commands and check marks, and the tray icon's pixels.
use vstd::prelude::*;
use crate::language::{Gender, LanguageMode};
use crate::text::same_text;
use tray_icon::{BadIcon, Icon};

verus! {

/// An item of the tray menu that was clicked.
#[derive(Debug, Clone, Copy, PartialEq, Eq, Structural)]
pub enum MenuCommand {
    Quit,
    Cancel,
    VoiceFemale,
    VoiceMale,
    LangAuto,
    LangEnglish,
    LangVietnamese,
}

#[verifier::external_type_specification]
#[verifier::external_body]
pub struct ExIcon(Icon);

#[verifier::external_type_specification]
#[verifier::external_body]
pub struct ExIoError(std::io::Error);

/// The ids of the menu items that send commands, as the menu assigned them.
pub struct MenuIds {
    pub quit: String,
    pub cancel: String,
    pub voice_female: String,
    pub voice_male: String,
    pub lang_auto: String,
    pub lang_english: String,
    pub lang_vietnamese: String,
}

/// The command of a clicked item with id `id`: the first item with that id,
/// in the order quit, cancel, female, male, auto-detect, English, Vietnamese.
pub open spec fn command_of_id(ids: MenuIds, id: Seq<char>) -> Option<MenuCommand> {
    if id == ids.quit@ {
        Some(MenuCommand::Quit)
    } else if id == ids.cancel@ {
        Some(MenuCommand::Cancel)
    } else if id == ids.voice_female@ {
        Some(MenuCommand::VoiceFemale)
    } else if id == ids.voice_male@ {
        Some(MenuCommand::VoiceMale)
    } else if id == ids.lang_auto@ {
        Some(MenuCommand::LangAuto)
    } else if id == ids.lang_english@ {
        Some(MenuCommand::LangEnglish)
    } else if id == ids.lang_vietnamese@ {
        Some(MenuCommand::LangVietnamese)
    } else {
        None
    }
}

/// The id of the item that sends `command`.
pub open spec fn id_of(ids: MenuIds, command: MenuCommand) -> Seq<char> {
    match command {
        MenuCommand::Quit => ids.quit@,
        MenuCommand::Cancel => ids.cancel@,
        MenuCommand::VoiceFemale => ids.voice_female@,
        MenuCommand::VoiceMale => ids.voice_male@,
        MenuCommand::LangAuto => ids.lang_auto@,
        MenuCommand::LangEnglish => ids.lang_english@,
        MenuCommand::LangVietnamese => ids.lang_vietnamese@,
    }
}

/// Whether the seven items have seven different ids.
pub open spec fn ids_distinct(ids: MenuIds) -> bool {
    forall|a: MenuCommand, b: MenuCommand| a != b ==> id_of(ids, a) != id_of(ids, b)
}

impl MenuIds {
    /// The command of the clicked item with id `id`, if it is one of the seven.
    pub fn command_for(&self, id: &str) -> (res: Option<MenuCommand>)
        ensures
            res == command_of_id(*self, id@),
    {
        if same_text(id, self.quit.as_str()) {
            Some(MenuCommand::Quit)
        } else if same_text(id, self.cancel.as_str()) {
            Some(MenuCommand::Cancel)
        } else if same_text(id, self.voice_female.as_str()) {
            Some(MenuCommand::VoiceFemale)
        } else if same_text(id, self.voice_male.as_str()) {
            Some(MenuCommand::VoiceMale)
        } else if same_text(id, self.lang_auto.as_str()) {
            Some(MenuCommand::LangAuto)
        } else if same_text(id, self.lang_english.as_str()) {
            Some(MenuCommand::LangEnglish)
        } else if same_text(id, self.lang_vietnamese.as_str()) {
            Some(MenuCommand::LangVietnamese)
        } else {
            None
        }
    }
}

/// The ids given to the menu items: `quit`, `cancel`, `voice-female`,
/// `voice-male`, `lang-auto`, `lang-english` and `lang-vietnamese`.
pub fn menu_ids() -> (res: MenuIds)
    ensures
        res.quit@ == "quit"@,
        res.cancel@ == "cancel"@,
        res.voice_female@ == "voice-female"@,
        res.voice_male@ == "voice-male"@,
        res.lang_auto@ == "lang-auto"@,
        res.lang_english@ == "lang-english"@,
        res.lang_vietnamese@ == "lang-vietnamese"@,
        ids_distinct(res),
{
    let res = MenuIds {
        quit: String::from_str("quit"),
        cancel: String::from_str("cancel"),
        voice_female: String::from_str("voice-female"),
        voice_male: String::from_str("voice-male"),
        lang_auto: String::from_str("lang-auto"),
        lang_english: String::from_str("lang-english"),
        lang_vietnamese: String::from_str("lang-vietnamese"),
    };
    proof {
        reveal_strlit("quit");
        reveal_strlit("cancel");
        reveal_strlit("voice-female");
        reveal_strlit("voice-male");
        reveal_strlit("lang-auto");
        reveal_strlit("lang-english");
        reveal_strlit("lang-vietnamese");
        assert("voice-female"@[0] != "lang-english"@[0]);
        assert forall|a: MenuCommand, b: MenuCommand| a != b implies id_of(res, a) != id_of(res, b) by {
            if id_of(res, a).len() == id_of(res, b).len() {
                assert(id_of(res, a)[0] != id_of(res, b)[0]);
            }
        }
    }
    res
}

impl MenuIds {
    /// The id of the item that sends `command`.
    pub fn id_of_command(&self, command: MenuCommand) -> (res: &str)
        ensures
            res@ == id_of(*self, command),
    {
        match command {
            MenuCommand::Quit => self.quit.as_str(),
            MenuCommand::Cancel => self.cancel.as_str(),
            MenuCommand::VoiceFemale => self.voice_female.as_str(),
            MenuCommand::VoiceMale => self.voice_male.as_str(),
            MenuCommand::LangAuto => self.lang_auto.as_str(),
            MenuCommand::LangEnglish => self.lang_english.as_str(),
            MenuCommand::LangVietnamese => self.lang_vietnamese.as_str(),
        }
    }
}

/// When the items have different ids, a click on an item gives that item's command.
pub proof fn law_click_gives_item_command(ids: MenuIds, command: MenuCommand)
    requires
        ids_distinct(ids),
    ensures
        command_of_id(ids, id_of(ids, command)) == Some(command),
{
    assert(id_of(ids, MenuCommand::Quit) == ids.quit@);
    assert(id_of(ids, MenuCommand::Cancel) == ids.cancel@);
    assert(id_of(ids, MenuCommand::VoiceFemale) == ids.voice_female@);
    assert(id_of(ids, MenuCommand::VoiceMale) == ids.voice_male@);
    assert(id_of(ids, MenuCommand::LangAuto) == ids.lang_auto@);
    assert(id_of(ids, MenuCommand::LangEnglish) == ids.lang_english@);
    assert(id_of(ids, MenuCommand::LangVietnamese) == ids.lang_vietnamese@);
}

/// An entry of the tray menu, top to bottom.
pub enum MenuEntry {
    /// An item with a check mark.
    Check { command: MenuCommand, label: String, checked: bool },
    /// A plain item, enabled or greyed out.
    Item { command: MenuCommand, label: String, enabled: bool },
    /// A separator line.
    Separator,
}

/// What a menu entry is: a check item or a plain item with its command, label
/// and initial mark (checked, or enabled), or a separator.
pub enum EntryView {
    Check(MenuCommand, Seq<char>, bool),
    Item(MenuCommand, Seq<char>, bool),
    Separator,
}

/// The view of a menu entry.
pub open spec fn entry_view(e: MenuEntry) -> EntryView {
    match e {
        MenuEntry::Check { command, label, checked } => EntryView::Check(command, label@, checked),
        MenuEntry::Item { command, label, enabled } => EntryView::Item(command, label@, enabled),
        MenuEntry::Separator => EntryView::Separator,
    }
}

/// The tray menu as first shown: the voice and language items are check
/// items, female voice and auto-detect checked; cancel and quit are plain
/// items, cancel greyed out until something is spoken.
pub open spec fn initial_menu() -> Seq<EntryView> {
    seq![
        EntryView::Check(MenuCommand::VoiceFemale, "Voice: Female"@, true),
        EntryView::Check(MenuCommand::VoiceMale, "Voice: Male"@, false),
        EntryView::Separator,
        EntryView::Check(MenuCommand::LangAuto, "Lang: Auto-detect"@, true),
        EntryView::Check(MenuCommand::LangEnglish, "Lang: English"@, false),
        EntryView::Check(MenuCommand::LangVietnamese, "Lang: Vietnamese"@, false),
        EntryView::Separator,
        EntryView::Item(MenuCommand::Cancel, "Cancel current speech"@, false),
        EntryView::Separator,
        EntryView::Item(MenuCommand::Quit, "Quit"@, true),
    ]
}

/// Tooltip of the tray icon.
pub const TRAY_TOOLTIP: &'static str = "speekr - Speak: Ctrl+Alt+T, Translate: Ctrl+Alt+G";

/// Title of the tray icon.
pub const TRAY_TITLE: &'static str = "speekr";

/// The entries of the tray menu, top to bottom.
pub fn menu_layout() -> (res: Vec<MenuEntry>)
    ensures
        res@.map_values(|e: MenuEntry| entry_view(e)) == initial_menu(),
{
    let res = vec![
        MenuEntry::Check { command: MenuCommand::VoiceFemale, label: String::from_str("Voice: Female"), checked: true },
        MenuEntry::Check { command: MenuCommand::VoiceMale, label: String::from_str("Voice: Male"), checked: false },
        MenuEntry::Separator,
        MenuEntry::Check { command: MenuCommand::LangAuto, label: String::from_str("Lang: Auto-detect"), checked: true },
        MenuEntry::Check { command: MenuCommand::LangEnglish, label: String::from_str("Lang: English"), checked: false },
        MenuEntry::Check {
            command: MenuCommand::LangVietnamese,
            label: String::from_str("Lang: Vietnamese"),
            checked: false,
        },
        MenuEntry::Separator,
        MenuEntry::Item { command: MenuCommand::Cancel, label: String::from_str("Cancel current speech"), enabled: false },
        MenuEntry::Separator,
        MenuEntry::Item { command: MenuCommand::Quit, label: String::from_str("Quit"), enabled: true },
    ];
    assert(res@.map_values(|e: MenuEntry| entry_view(e)) =~= initial_menu());
    res
}

/// The command of a menu entry, none for a separator.
pub open spec fn entry_command(e: EntryView) -> Option<MenuCommand> {
    match e {
        EntryView::Check(command, _, _) => Some(command),
        EntryView::Item(command, _, _) => Some(command),
        EntryView::Separator => None,
    }
}

/// Whether a command's item carries a check mark: the voice and language items.
pub open spec fn is_check_command(command: MenuCommand) -> bool {
    command != MenuCommand::Quit && command != MenuCommand::Cancel
}

/// Every command has exactly one entry in the first menu, a check item for
/// the voice and language commands and a plain item for cancel and quit.
pub proof fn law_menu_has_each_command_once(command: MenuCommand)
    ensures
        exists|k: int|
            0 <= k < initial_menu().len() && entry_command(#[trigger] initial_menu()[k]) == Some(command) && (
            initial_menu()[k] is Check <==> is_check_command(command)),
        forall|k: int, m: int|
            0 <= k < initial_menu().len() && 0 <= m < initial_menu().len() && entry_command(
                #[trigger] initial_menu()[k],
            ) == Some(command) && entry_command(#[trigger] initial_menu()[m]) == Some(command) ==> k == m,
{
    let menu = initial_menu();
    assert(entry_command(menu[0]) == Some(MenuCommand::VoiceFemale));
    assert(entry_command(menu[1]) == Some(MenuCommand::VoiceMale));
    assert(entry_command(menu[2]) is None);
    assert(entry_command(menu[3]) == Some(MenuCommand::LangAuto));
    assert(entry_command(menu[4]) == Some(MenuCommand::LangEnglish));
    assert(entry_command(menu[5]) == Some(MenuCommand::LangVietnamese));
    assert(entry_command(menu[6]) is None);
    assert(entry_command(menu[7]) == Some(MenuCommand::Cancel));
    assert(entry_command(menu[8]) is None);
    assert(entry_command(menu[9]) == Some(MenuCommand::Quit));
}

/// The mark (checked or enabled) of entry `k` of the first menu; false for a separator.
pub open spec fn initial_mark(k: int) -> bool {
    match initial_menu()[k] {
        EntryView::Check(_, _, mark) => mark,
        EntryView::Item(_, _, mark) => mark,
        EntryView::Separator => false,
    }
}

/// The first menu's marks are those of the start settings: the voice and
/// language marks of a female voice in auto-detect mode, and cancelling is
/// greyed out as nothing is spoken yet.
pub proof fn law_initial_menu_matches_start_settings()
    ensures
        (initial_mark(0), initial_mark(1)) == voice_marks(Gender::Female),
        (initial_mark(3), initial_mark(4), initial_mark(5)) == language_marks(LanguageMode::Auto),
        !initial_mark(7),
{
}

/// Check marks of the two voice items: (Female, Male).
pub open spec fn voice_marks(gender: Gender) -> (bool, bool) {
    (gender == Gender::Female, gender == Gender::Male)
}

/// Check marks of the three language items: (Auto-detect, English, Vietnamese).
pub open spec fn language_marks(mode: LanguageMode) -> (bool, bool, bool) {
    (mode == LanguageMode::Auto, mode == LanguageMode::English, mode == LanguageMode::Vietnamese)
}

/// Which voice items are checked when `gender` is selected: (Female, Male).
pub fn voice_checks(gender: Gender) -> (res: (bool, bool))
    ensures
        res == voice_marks(gender),
{
    (gender == Gender::Female, gender == Gender::Male)
}

/// Which language items are checked when `mode` is selected: (Auto-detect, English, Vietnamese).
pub fn language_mode_checks(mode: LanguageMode) -> (res: (bool, bool, bool))
    ensures
        res == language_marks(mode),
{
    (mode == LanguageMode::Auto, mode == LanguageMode::English, mode == LanguageMode::Vietnamese)
}

/// Exactly one voice item and exactly one language item are checked, the selected ones.
pub proof fn law_one_mark_per_group(gender: Gender, mode: LanguageMode)
    ensures
        voice_marks(gender).0 != voice_marks(gender).1,
        voice_marks(gender).0 <==> gender == Gender::Female,
        language_marks(mode).0 as int + language_marks(mode).1 as int + language_marks(mode).2 as int == 1,
        language_marks(mode).0 <==> mode == LanguageMode::Auto,
        language_marks(mode).1 <==> mode == LanguageMode::English,
        language_marks(mode).2 <==> mode == LanguageMode::Vietnamese,
{
}

/// Width and height of the tray icon, in pixels.
pub const ICON_SIZE: usize = 32;

/// Number of bytes of the icon's RGBA buffer.
pub const ICON_BYTES: usize = 4096;

/// Whether pixel (x, y) belongs to the microphone: head, body, stem or base.
pub open spec fn in_microphone(x: int, y: int) -> bool {
    ||| (11 <= x <= 20 && 5 <= y <= 18)
    ||| (9 <= x <= 22 && 13 <= y <= 21)
    ||| (15 <= x <= 16 && 21 <= y <= 27)
    ||| (10 <= x <= 21 && 27 <= y <= 29)
}

/// Whether pixel (x, y) belongs to the highlight on the microphone's head.
pub open spec fn in_shine(x: int, y: int) -> bool {
    13 <= x <= 14 && 7 <= y <= 14
}

/// Channel `c` (red, green, blue, alpha) of pixel (x, y): the highlight over
/// the blue microphone over a transparent background.
pub open spec fn icon_channel(x: int, y: int, c: int) -> u8 {
    if in_shine(x, y) {
        if c == 0 {
            235u8
        } else if c == 1 {
            245u8
        } else if c == 2 {
            255u8
        } else {
            220u8
        }
    } else if in_microphone(x, y) {
        if c == 0 {
            36u8
        } else if c == 1 {
            110u8
        } else if c == 2 {
            185u8
        } else {
            255u8
        }
    } else {
        0u8
    }
}

/// Byte `k` of the icon's buffer, rows from the top, four bytes per pixel.
pub open spec fn icon_byte(k: int) -> u8 {
    icon_channel((k / 4) % 32, k / 128, k % 4)
}

fn within(v: usize, lo: usize, hi: usize) -> (res: bool)
    ensures
        res == (lo <= v <= hi),
{
    lo <= v && v <= hi
}

proof fn lemma_pixel_index(x: int, y: int, c: int)
    requires
        0 <= x < 32,
        0 <= y < 32,
        0 <= c < 4,
    ensures
        ((y * 32 + x) * 4 + c) / 4 % 32 == x,
        ((y * 32 + x) * 4 + c) / 128 == y,
        ((y * 32 + x) * 4 + c) % 4 == c,
{
    assert(((y * 32 + x) * 4 + c) / 4 == y * 32 + x) by (nonlinear_arith)
        requires
            0 <= x < 32,
            0 <= y < 32,
            0 <= c < 4,
    ;
    assert((y * 32 + x) % 32 == x) by (nonlinear_arith)
        requires
            0 <= x < 32,
            0 <= y < 32,
    ;
    assert(((y * 32 + x) * 4 + c) / 128 == y) by (nonlinear_arith)
        requires
            0 <= x < 32,
            0 <= y < 32,
            0 <= c < 4,
    ;
    assert(((y * 32 + x) * 4 + c) % 4 == c) by (nonlinear_arith)
        requires
            0 <= x < 32,
            0 <= y < 32,
            0 <= c < 4,
    ;
}

/// The tray icon as 32×32 RGBA pixels: a blue microphone with a light
/// highlight on a transparent background.
pub fn icon_rgba() -> (res: Vec<u8>)
    ensures
        res@.len() == ICON_BYTES,
        forall|k: int| 0 <= k < ICON_BYTES ==> #[trigger] res@[k] == icon_byte(k),
{
    let width: usize = ICON_SIZE;
    let height: usize = ICON_SIZE;
    let mut rgba = vec![0u8; ICON_BYTES];
    let mut y: usize = 0;
    while y < height
        invariant
            width == 32,
            height == 32,
            y <= height,
            rgba@.len() == ICON_BYTES,
            forall|k: int| 0 <= k < y * 128 ==> #[trigger] rgba@[k] == icon_byte(k),
            forall|k: int| y * 128 <= k < ICON_BYTES ==> #[trigger] rgba@[k] == 0u8,
        decreases height - y,
    {
        let mut x: usize = 0;
        while x < width
            invariant
                width == 32,
                height == 32,
                y < height,
                x <= width,
                rgba@.len() == ICON_BYTES,
                forall|k: int| 0 <= k < (y * 32 + x) * 4 ==> #[trigger] rgba@[k] == icon_byte(k),
                forall|k: int| (y * 32 + x) * 4 <= k < ICON_BYTES ==> #[trigger] rgba@[k] == 0u8,
            decreases width - x,
        {
            let index: usize = (y * width + x) * 4;
            let mic_head = within(x, 11, 20) && within(y, 5, 18);
            let mic_body = within(x, 9, 22) && within(y, 13, 21);
            let stem = within(x, 15, 16) && within(y, 21, 27);
            let base = within(x, 10, 21) && within(y, 27, 29);
            if mic_head || mic_body || stem || base {
                rgba.set(index, 36);
                rgba.set(index + 1, 110);
                rgba.set(index + 2, 185);
                rgba.set(index + 3, 255);
            }
            let shine = within(x, 13, 14) && within(y, 7, 14);
            if shine {
                rgba.set(index, 235);
                rgba.set(index + 1, 245);
                rgba.set(index + 2, 255);
                rgba.set(index + 3, 220);
            }
            proof {
                lemma_pixel_index(x as int, y as int, 0);
                lemma_pixel_index(x as int, y as int, 1);
                lemma_pixel_index(x as int, y as int, 2);
                lemma_pixel_index(x as int, y as int, 3);
                assert(rgba@[index as int] == icon_byte(index as int));
                assert(rgba@[index + 1] == icon_byte(index + 1));
                assert(rgba@[index + 2] == icon_byte(index + 2));
                assert(rgba@[index + 3] == icon_byte(index + 3));
            }
            x = x + 1;
        }
        y = y + 1;
    }
    rgba
}

/// Why an icon could not be made from RGBA data.
#[derive(Debug)]
pub enum IconError {
    /// The data's length is not a multiple of 4, so it is not 32-bit pixels.
    ByteCountNotDivisibleBy4 { byte_count: usize },
    /// The number of pixels differs from width × height.
    DimensionsVsPixelCount { width: u32, height: u32, width_x_height: usize, pixel_count: usize },
    /// The system failed to make the icon from valid data.
    System(std::io::Error),
}

/// Whether the data was refused because `len` bytes are not whole pixels.
pub open spec fn refused_for_byte_count(res: Result<Icon, IconError>, len: nat) -> bool {
    match res {
        Err(IconError::ByteCountNotDivisibleBy4 { byte_count }) => byte_count == len,
        _ => false,
    }
}

/// Whether the data was refused because its `pixels` differ from width × height.
pub open spec fn refused_for_dimensions(res: Result<Icon, IconError>, width: u32, height: u32, pixels: nat) -> bool {
    match res {
        Err(IconError::DimensionsVsPixelCount { width: w, height: h, width_x_height: wh, pixel_count: pc }) => {
            &&& w == width
            &&& h == height
            &&& wh == width * height
            &&& pc == pixels
        },
        _ => false,
    }
}

/// Whether an icon was made, or else the system (not the data) failed.
pub open spec fn made_or_system_failure(res: Result<Icon, IconError>) -> bool {
    match res {
        Ok(_) => true,
        Err(IconError::System(_)) => true,
        _ => false,
    }
}

/// Calls `tray_icon::Icon::from_rgba` and tells its errors apart. The contract
/// claims what its documentation and source state: data whose length is not a
/// multiple of 4, or whose pixel count differs from width × height, is refused
/// with that reason; valid data is never refused as data, so it gives an icon
/// or a system failure. It does not claim success on valid data, since on
/// Windows the system may still fail to make the icon.
#[verifier::external_body]
fn icon_from_rgba(rgba: Vec<u8>, width: u32, height: u32) -> (res: Result<Icon, IconError>)
    requires
        width * height <= u32::MAX,
    ensures
        rgba@.len() % 4 != 0 ==> refused_for_byte_count(res, rgba@.len()),
        rgba@.len() % 4 == 0 && rgba@.len() / 4 != width * height ==> refused_for_dimensions(res, width, height, rgba@.len() / 4),
        rgba@.len() % 4 == 0 && rgba@.len() / 4 == width * height ==> made_or_system_failure(res),
{
    match Icon::from_rgba(rgba, width, height) {
        Ok(icon) => Ok(icon),
        Err(BadIcon::ByteCountNotDivisibleBy4 { byte_count }) => Err(IconError::ByteCountNotDivisibleBy4 { byte_count }),
        Err(BadIcon::DimensionsVsPixelCount { width, height, width_x_height, pixel_count }) => Err(
            IconError::DimensionsVsPixelCount { width, height, width_x_height, pixel_count },
        ),
        Err(BadIcon::OsError(error)) => Err(IconError::System(error)),
    }
}

/// The tray icon made from `icon_rgba`, 32 pixels wide and high. Its pixel data
/// is well formed, so it is never refused as data: the only failure left is
/// the system's.
pub fn build_icon() -> (res: Result<Icon, IconError>)
    ensures
        made_or_system_failure(res),
{
    let rgba = icon_rgba();
    assert(rgba@.len() % 4 == 0 && rgba@.len() / 4 == 32 * 32);
    icon_from_rgba(rgba, 32, 32)
}

/// Pixel (x, y) of the icon, channel c, is at byte (y·32 + x)·4 + c; outside the
/// microphone every pixel is fully transparent, and the highlight is drawn over it.
pub proof fn law_icon_layout(x: int, y: int, c: int)
    requires
        0 <= x < 32,
        0 <= y < 32,
        0 <= c < 4,
    ensures
        icon_byte((y * 32 + x) * 4 + c) == icon_channel(x, y, c),
        !in_microphone(x, y) && !in_shine(x, y) ==> icon_byte((y * 32 + x) * 4 + c) == 0,
        in_shine(x, y) ==> in_microphone(x, y),
{
    lemma_pixel_index(x, y, c);
}

/// Every entry of the menu is labelled with what its command does: the entry
/// that sends `LangEnglish` reads "Lang: English", the one that sends
/// `VoiceMale` reads "Voice: Male", and so on for all seven commands.
pub proof fn law_entry_labels_name_their_commands(k: int)
    requires
        0 <= k < initial_menu().len(),
    ensures
        match initial_menu()[k] {
            EntryView::Check(command, label, _) | EntryView::Item(command, label, _) => label == match command {
                MenuCommand::VoiceFemale => "Voice: Female"@,
                MenuCommand::VoiceMale => "Voice: Male"@,
                MenuCommand::LangAuto => "Lang: Auto-detect"@,
                MenuCommand::LangEnglish => "Lang: English"@,
                MenuCommand::LangVietnamese => "Lang: Vietnamese"@,
                MenuCommand::Cancel => "Cancel current speech"@,
                MenuCommand::Quit => "Quit"@,
            },
            EntryView::Separator => true,
        },
{
}

} // verus!
