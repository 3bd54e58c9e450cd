//! Key tables: browser key names to SDL scancodes, keycodes and Linux evdev
//! numbers, and SDL keycodes to scancodes.
use vstd::prelude::*;
use crate::text::{code_lookup, lemma_lookup_code_absent, lookup_code, lookup_name, table_lookup};

verus! {

pub const KMOD_NONE: u32 = 0x0000;
pub const KMOD_LSHIFT: u32 = 0x0001;
pub const KMOD_RSHIFT: u32 = 0x0002;
pub const KMOD_LCTRL: u32 = 0x0040;
pub const KMOD_RCTRL: u32 = 0x0080;
pub const KMOD_LALT: u32 = 0x0100;
pub const KMOD_RALT: u32 = 0x0200;
pub const KMOD_LGUI: u32 = 0x0400;
pub const KMOD_RGUI: u32 = 0x0800;
pub const KMOD_NUM: u32 = 0x1000;
pub const KMOD_CAPS: u32 = 0x2000;
pub const KMOD_MODE: u32 = 0x4000;
pub const KMOD_SCROLL: u32 = 0x8000;
pub const KMOD_CTRL: u32 = 0x00C0;
pub const KMOD_SHIFT: u32 = 0x0003;
pub const KMOD_ALT: u32 = 0x0300;
pub const KMOD_GUI: u32 = 0x0C00;
pub const KMOD_RESERVED: u32 = 0x8000;

/// `SDL_SCANCODE_UNKNOWN`.
pub const SDL_SCANCODE_UNKNOWN: u32 = 0;
/// `SDLK_UNKNOWN`.
pub const SDLK_UNKNOWN: u32 = 0;
/// `SDLK_LCTRL`.
pub const SDLK_LCTRL: u32 = 1073742048;
/// `SDLK_LSHIFT`.
pub const SDLK_LSHIFT: u32 = 1073742049;
/// `SDLK_LALT`.
pub const SDLK_LALT: u32 = 1073742050;
/// `SDLK_RCTRL`.
pub const SDLK_RCTRL: u32 = 1073742052;
/// `SDLK_RSHIFT`.
pub const SDLK_RSHIFT: u32 = 1073742053;
/// `SDLK_RALT`.
pub const SDLK_RALT: u32 = 1073742054;

/// Linux mouse button numbers for the browser's button indices
/// (left, middle, right, back, forward).
pub const WEB_BTN_TO_LINUX_BUTTON: [u32; 5] = [0x110, 0x112, 0x111, 0x116, 0x115];

/// SDL scancodes of the browser's `KeyboardEvent.code` names that are understood.
pub const SCANCODE_OF_CODE: [(&'static str, u32); 71] = [
    ("KeyA", 4),
    ("KeyB", 5),
    ("KeyC", 6),
    ("KeyD", 7),
    ("KeyE", 8),
    ("KeyF", 9),
    ("KeyG", 10),
    ("KeyH", 11),
    ("KeyI", 12),
    ("KeyJ", 13),
    ("KeyK", 14),
    ("KeyL", 15),
    ("KeyM", 16),
    ("KeyN", 17),
    ("KeyO", 18),
    ("KeyP", 19),
    ("KeyQ", 20),
    ("KeyR", 21),
    ("KeyS", 22),
    ("KeyT", 23),
    ("KeyU", 24),
    ("KeyV", 25),
    ("KeyW", 26),
    ("KeyX", 27),
    ("KeyY", 28),
    ("KeyZ", 29),
    ("Unidentified", 0),
    ("Cancel", 155),
    ("Backspace", 42),
    ("Tab", 43),
    ("NumLock", 156),
    ("Enter", 40),
    ("ShiftLeft", 225),
    ("ShiftRight", 229),
    ("ControlLeft", 224),
    ("ControlRight", 228),
    ("AltLeft", 226),
    ("AltRight", 230),
    ("Pause", 72),
    ("CapsLock", 57),
    ("Escape", 41),
    ("Space", 44),
    ("PageUp", 75),
    ("PageDown", 78),
    ("End", 77),
    ("Home", 74),
    ("ArrowLeft", 80),
    ("ArrowRight", 79),
    ("ArrowUp", 82),
    ("ArrowDown", 81),
    ("F13", 104),
    ("Numpad0", 98),
    ("NumpadDecimal", 76),
    ("Digit0", 39),
    ("Digit1", 30),
    ("Digit2", 31),
    ("Digit3", 32),
    ("Digit4", 33),
    ("Digit5", 34),
    ("Digit6", 35),
    ("Digit7", 36),
    ("Digit8", 37),
    ("Digit9", 38),
    ("Period", 55),
    ("Comma", 54),
    ("Slash", 56),
    ("Semicolon", 51),
    ("Quote", 52),
    ("LeftBracket", 47),
    ("Backslash", 49),
    ("RightBracket", 48),
];

/// SDL keycodes of the browser's `KeyboardEvent.key` values that are understood.
pub const KEYCODE_OF_KEY: [(&'static str, u32); 40] = [
    ("a", 97),
    ("b", 98),
    ("c", 99),
    ("d", 100),
    ("e", 101),
    ("f", 102),
    ("g", 103),
    ("h", 104),
    ("i", 105),
    ("j", 106),
    ("k", 107),
    ("l", 108),
    ("m", 109),
    ("n", 110),
    ("o", 111),
    ("p", 112),
    ("q", 113),
    ("r", 114),
    ("s", 115),
    ("t", 116),
    ("u", 117),
    ("v", 118),
    ("w", 119),
    ("x", 120),
    ("y", 121),
    ("z", 122),
    ("1", 49),
    ("2", 50),
    ("3", 51),
    ("4", 52),
    ("5", 53),
    ("6", 54),
    ("7", 55),
    ("8", 56),
    ("9", 57),
    ("0", 48),
    ("\n", 13),
    (" ", 32),
    ("-", 45),
    ("=", 61),
];

/// The SDL keycodes that have a scancode here, with that scancode, in order of
/// scancode; every other keycode has `SDL_SCANCODE_UNKNOWN`.
pub const SCANCODE_OF_KEYCODE: [(u32, u32); 78] = [
    (97, 4),
    (98, 5),
    (99, 6),
    (100, 7),
    (101, 8),
    (102, 9),
    (103, 10),
    (104, 11),
    (105, 12),
    (106, 13),
    (107, 14),
    (108, 15),
    (109, 16),
    (110, 17),
    (111, 18),
    (112, 19),
    (113, 20),
    (114, 21),
    (115, 22),
    (116, 23),
    (117, 24),
    (118, 25),
    (119, 26),
    (120, 27),
    (121, 28),
    (122, 29),
    (49, 30),
    (50, 31),
    (51, 32),
    (52, 33),
    (53, 34),
    (54, 35),
    (55, 36),
    (56, 37),
    (57, 38),
    (48, 39),
    (13, 40),
    (8, 42),
    (9, 43),
    (32, 44),
    (45, 45),
    (61, 46),
    (1073741881, 57),
    (1073741882, 58),
    (1073741883, 59),
    (1073741884, 60),
    (1073741885, 61),
    (1073741886, 62),
    (1073741887, 63),
    (1073741888, 64),
    (1073741889, 65),
    (1073741890, 66),
    (1073741891, 67),
    (1073741892, 68),
    (1073741893, 69),
    (1073741894, 70),
    (1073741903, 79),
    (1073741904, 80),
    (1073741905, 81),
    (1073741906, 82),
    (1073741913, 89),
    (1073741914, 90),
    (1073741915, 91),
    (1073741916, 92),
    (1073741917, 93),
    (1073741918, 94),
    (1073741919, 95),
    (1073741920, 96),
    (1073741921, 97),
    (1073741922, 98),
    (1073742048, 224),
    (1073742049, 225),
    (1073742050, 226),
    (1073742051, 227),
    (1073742052, 228),
    (1073742053, 229),
    (1073742054, 230),
    (1073742055, 231),
];

/// Linux evdev key numbers of the browser's `KeyboardEvent.code` names, in
/// order of number.
pub const EVDEV_OF_CODE: [(&'static str, u32); 166] = [
    ("Select", 0),
    ("Escape", 1),
    ("Digit1", 2),
    ("Digit2", 3),
    ("Digit3", 4),
    ("Digit4", 5),
    ("Digit5", 6),
    ("Digit6", 7),
    ("Digit7", 8),
    ("Digit8", 9),
    ("Digit9", 10),
    ("Digit0", 11),
    ("Minus", 12),
    ("Equal", 13),
    ("Backspace", 14),
    ("Tab", 15),
    ("KeyQ", 16),
    ("KeyW", 17),
    ("KeyE", 18),
    ("KeyR", 19),
    ("KeyT", 20),
    ("KeyY", 21),
    ("KeyU", 22),
    ("KeyI", 23),
    ("KeyO", 24),
    ("KeyP", 25),
    ("BracketLeft", 26),
    ("BracketRight", 27),
    ("Enter", 28),
    ("ControlLeft", 29),
    ("KeyA", 30),
    ("KeyS", 31),
    ("KeyD", 32),
    ("KeyF", 33),
    ("KeyG", 34),
    ("KeyH", 35),
    ("KeyJ", 36),
    ("KeyK", 37),
    ("KeyL", 38),
    ("Semicolon", 39),
    ("Quote", 40),
    ("Backquote", 41),
    ("ShiftLeft", 42),
    ("Backslash", 43),
    ("KeyZ", 44),
    ("KeyX", 45),
    ("KeyC", 46),
    ("KeyV", 47),
    ("KeyB", 48),
    ("KeyN", 49),
    ("KeyM", 50),
    ("Comma", 51),
    ("Period", 52),
    ("Slash", 53),
    ("ShiftRight", 54),
    ("NumpadMultiply", 55),
    ("AltLeft", 56),
    ("Space", 57),
    ("CapsLock", 58),
    ("F1", 59),
    ("F2", 60),
    ("F3", 61),
    ("F4", 62),
    ("F5", 63),
    ("F6", 64),
    ("F7", 65),
    ("F8", 66),
    ("F9", 67),
    ("F10", 68),
    ("NumLock", 69),
    ("ScrollLock", 70),
    ("Numpad7", 71),
    ("Numpad8", 72),
    ("Numpad9", 73),
    ("NumpadSubtract", 74),
    ("Numpad4", 75),
    ("Numpad5", 76),
    ("Numpad6", 77),
    ("NumpadAdd", 78),
    ("Numpad1", 79),
    ("Numpad2", 80),
    ("Numpad3", 81),
    ("Numpad0", 82),
    ("NumpadDecimal", 83),
    ("Lang5", 85),
    ("IntlBackslash", 86),
    ("F11", 87),
    ("F12", 88),
    ("IntlRo", 89),
    ("Lang3", 90),
    ("Lang4", 91),
    ("Convert", 92),
    ("KanaMode", 93),
    ("NonConvert", 94),
    ("NumpadEnter", 96),
    ("ControlRight", 97),
    ("NumpadDivide", 98),
    ("PrintScreen", 99),
    ("AltRight", 100),
    ("Home", 102),
    ("ArrowUp", 103),
    ("PageUp", 104),
    ("ArrowLeft", 105),
    ("ArrowRight", 106),
    ("End", 107),
    ("ArrowDown", 108),
    ("PageDown", 109),
    ("Insert", 110),
    ("Delete", 111),
    ("AudioVolumeMute", 113),
    ("AudioVolumeDown", 114),
    ("AudioVolumeUp", 115),
    ("Power", 116),
    ("NumpadEqual", 117),
    ("Pause", 119),
    ("NumpadComma", 121),
    ("Lang1", 122),
    ("Lang2", 123),
    ("IntlYen", 124),
    ("MetaLeft", 125),
    ("MetaRight", 126),
    ("ContextMenu", 127),
    ("BrowserStop", 128),
    ("Again", 129),
    ("Props", 130),
    ("Undo", 131),
    ("Copy", 133),
    ("Open", 134),
    ("Paste", 135),
    ("Find", 136),
    ("Cut", 137),
    ("Help", 138),
    ("LaunchCalculator", 140),
    ("Sleep", 142),
    ("WakeUp", 143),
    ("LaunchFileManager", 144),
    ("LaunchApp1", 148),
    ("LaunchApp2", 149),
    ("LaunchMail", 155),
    ("BrowserFavorites", 156),
    ("BrowserBack", 158),
    ("BrowserForward", 159),
    ("Eject", 161),
    ("MediaTrackNext", 163),
    ("MediaPlayPause", 164),
    ("MediaTrackPrevious", 165),
    ("MediaStop", 166),
    ("MediaRecord", 167),
    ("MediaRewind", 168),
    ("BrowserHome", 172),
    ("BrowserRefresh", 173),
    ("F13", 183),
    ("F14", 184),
    ("F15", 185),
    ("F16", 186),
    ("F17", 187),
    ("F18", 188),
    ("F19", 189),
    ("F20", 190),
    ("F21", 191),
    ("F22", 192),
    ("F23", 193),
    ("F24", 194),
    ("MediaFastForward", 208),
    ("BrowserSearch", 217),
    ("LaunchMediaPlayer", 226),
];

/// SDL scancode of a browser `KeyboardEvent.code`; unknown names give
/// `SDL_SCANCODE_UNKNOWN`.
pub fn decode_keyevent_code(code: &str) -> (r: u32)
    ensures
        r == lookup_name(SCANCODE_OF_CODE@, code@, SDL_SCANCODE_UNKNOWN),
{
    table_lookup(&SCANCODE_OF_CODE, code, SDL_SCANCODE_UNKNOWN)
}

/// `decode_keyevent_code` as a C integer.
pub fn decode_keyevent_code_int(code: &str) -> (r: i32)
    ensures
        r == lookup_name(SCANCODE_OF_CODE@, code@, SDL_SCANCODE_UNKNOWN) as i32,
{
    decode_keyevent_code(code) as i32
}

/// SDL keycode of a browser `KeyboardEvent.key`; unknown values give `SDLK_UNKNOWN`.
pub fn decode_keyevent_key(key: &str) -> (r: u32)
    ensures
        r == lookup_name(KEYCODE_OF_KEY@, key@, SDLK_UNKNOWN),
{
    table_lookup(&KEYCODE_OF_KEY, key, SDLK_UNKNOWN)
}

/// `decode_keyevent_key` as a C integer.
pub fn decode_keyevent_key_int(code: &str) -> (r: i32)
    ensures
        r == lookup_name(KEYCODE_OF_KEY@, code@, SDLK_UNKNOWN) as i32,
{
    decode_keyevent_key(code) as i32
}

/// The scancode of an SDL keycode; keycodes without one give `SDL_SCANCODE_UNKNOWN`.
pub fn map_keycode_to_scancode(code: u32) -> (r: u32)
    ensures
        r == lookup_code(SCANCODE_OF_KEYCODE@, code, SDL_SCANCODE_UNKNOWN),
{
    code_lookup(&SCANCODE_OF_KEYCODE, code, SDL_SCANCODE_UNKNOWN)
}

/// Whether a scancode is `SDL_SCANCODE_UNKNOWN`.
pub fn is_unknwon(scancode: u32) -> (r: bool)
    ensures
        r == (scancode == SDL_SCANCODE_UNKNOWN),
{
    scancode == SDL_SCANCODE_UNKNOWN
}

/// Whether a keycode is `SDLK_UNKNOWN`.
pub fn is_unknown_keycode_u32(scancode: u32) -> (r: bool)
    ensures
        r == (scancode == SDLK_UNKNOWN),
{
    scancode == SDLK_UNKNOWN
}

/// Whether a scancode is `SDL_SCANCODE_UNKNOWN`.
pub fn is_unknown_scancode_u32(scancode: u32) -> (r: bool)
    ensures
        r == (scancode == SDL_SCANCODE_UNKNOWN),
{
    scancode == SDL_SCANCODE_UNKNOWN
}

/// The scancode of a keycode given as a plain number.
pub fn map_key_code_to_scancode_cursed(code: u32) -> (r: u32)
    ensures
        r == lookup_code(SCANCODE_OF_KEYCODE@, code, SDL_SCANCODE_UNKNOWN),
{
    if is_unknown_keycode_u32(code) {
        proof {
            assert(forall|i: int| 0 <= i < SCANCODE_OF_KEYCODE@.len() ==> #[trigger] SCANCODE_OF_KEYCODE@[i].0 != 0);
            lemma_lookup_code_absent(SCANCODE_OF_KEYCODE@, code, SDL_SCANCODE_UNKNOWN);
        }
        return SDL_SCANCODE_UNKNOWN;
    }
    map_keycode_to_scancode(code)
}

/// `map_key_code_to_scancode_cursed` as a plain number.
pub fn map_key_code_to_scancode_cursed_u32(code: u32) -> (r: u32)
    ensures
        r == lookup_code(SCANCODE_OF_KEYCODE@, code, SDL_SCANCODE_UNKNOWN),
{
    map_key_code_to_scancode_cursed(code)
}

/// Linux evdev key number of a browser `KeyboardEvent.code`; unknown names give 0.
pub fn decode_keyevent_code_to_evdev(code: &str) -> (r: u32)
    ensures
        r == lookup_name(EVDEV_OF_CODE@, code@, 0),
{
    table_lookup(&EVDEV_OF_CODE, code, 0)
}

/// Whether the value at position `i` of `t` is below the next one.
pub open spec fn rises_at<K>(t: Seq<(K, u32)>, i: int) -> bool {
    t[i].1 < t[i + 1].1
}

/// Whether the values of `t` strictly increase along it.
pub open spec fn values_increase<K>(t: Seq<(K, u32)>) -> bool {
    forall|i: int| 0 <= i < t.len() - 1 ==> #[trigger] rises_at(t, i)
}

/// Along strictly increasing values, an earlier entry has a smaller value.
proof fn lemma_increasing<K>(t: Seq<(K, u32)>, i: int, j: int)
    requires
        values_increase(t),
        0 <= i < j < t.len(),
    ensures
        t[i].1 < t[j].1,
    decreases j - i,
{
    assert(rises_at(t, j - 1));
    if j > i + 1 {
        lemma_increasing(t, i, j - 1);
    }
}

/// A number that a code table gives other than the default comes from an
/// entry of that number with that value.
proof fn lemma_lookup_code_found(t: Seq<(u32, u32)>, key: u32, default: u32) -> (i: int)
    requires
        lookup_code(t, key, default) != default,
    ensures
        0 <= i < t.len(),
        t[i].0 == key,
        t[i].1 == lookup_code(t, key, default),
    decreases t.len(),
{
    if t[0].0 == key {
        0
    } else {
        let j = lemma_lookup_code_found(t.drop_first(), key, default);
        j + 1
    }
}

/// A number that a name table gives other than the default comes from an
/// entry of that name with that value.
proof fn lemma_lookup_name_found(t: Seq<(&str, u32)>, name: Seq<char>, default: u32) -> (i: int)
    requires
        lookup_name(t, name, default) != default,
    ensures
        0 <= i < t.len(),
        t[i].0@ == name,
        t[i].1 == lookup_name(t, name, default),
    decreases t.len(),
{
    if t[0].0@ == name {
        0
    } else {
        let j = lemma_lookup_name_found(t.drop_first(), name, default);
        j + 1
    }
}

/// No two keycodes share a known scancode: where two keycodes map to the same
/// scancode other than `SDL_SCANCODE_UNKNOWN`, they are the same keycode.
pub proof fn law_known_scancodes_unshared(k1: u32, k2: u32)
    requires
        lookup_code(SCANCODE_OF_KEYCODE@, k1, SDL_SCANCODE_UNKNOWN) == lookup_code(
            SCANCODE_OF_KEYCODE@,
            k2,
            SDL_SCANCODE_UNKNOWN,
        ),
        lookup_code(SCANCODE_OF_KEYCODE@, k1, SDL_SCANCODE_UNKNOWN) != SDL_SCANCODE_UNKNOWN,
    ensures
        k1 == k2,
{
    let t = SCANCODE_OF_KEYCODE@;
    assert(values_increase(t));
    let i = lemma_lookup_code_found(t, k1, SDL_SCANCODE_UNKNOWN);
    let j = lemma_lookup_code_found(t, k2, SDL_SCANCODE_UNKNOWN);
    if i < j {
        lemma_increasing(t, i, j);
    } else if j < i {
        lemma_increasing(t, j, i);
    }
}

/// Distinct browser key names that are recognised get distinct evdev numbers.
pub proof fn law_evdev_codes_unshared(a: Seq<char>, b: Seq<char>)
    requires
        a != b,
        lookup_name(EVDEV_OF_CODE@, a, 0) != 0,
    ensures
        lookup_name(EVDEV_OF_CODE@, a, 0) != lookup_name(EVDEV_OF_CODE@, b, 0),
{
    let t = EVDEV_OF_CODE@;
    assert(values_increase(t));
    if lookup_name(t, a, 0) == lookup_name(t, b, 0) {
        let i = lemma_lookup_name_found(t, a, 0);
        let j = lemma_lookup_name_found(t, b, 0);
        if i < j {
            lemma_increasing(t, i, j);
        } else if j < i {
            lemma_increasing(t, j, i);
        }
    }
}

/// Every evdev number given is at most 226.
pub proof fn law_evdev_codes_bounded(name: Seq<char>)
    ensures
        lookup_name(EVDEV_OF_CODE@, name, 0) <= 226,
{
    let t = EVDEV_OF_CODE@;
    if lookup_name(t, name, 0) != 0 {
        assert(values_increase(t));
        let i = lemma_lookup_name_found(t, name, 0);
        if i < t.len() - 1 {
            lemma_increasing(t, i, t.len() - 1);
        }
    }
}


/// A key that the browser names by one character gets that character's code as
/// its SDL keycode, as SDL numbers printable keys; Enter, named by a line
/// feed, gets SDL's return keycode 13.
pub proof fn law_character_keys_keep_their_code(c: char)
    ensures
        lookup_name(KEYCODE_OF_KEY@, seq![c], SDLK_UNKNOWN) != SDLK_UNKNOWN ==> lookup_name(
            KEYCODE_OF_KEY@,
            seq![c],
            SDLK_UNKNOWN,
        ) == (if c == '\n' {
            13u32
        } else {
            c as u32
        }),
{
    reveal_strlit("a");
    reveal_strlit("b");
    reveal_strlit("c");
    reveal_strlit("d");
    reveal_strlit("e");
    reveal_strlit("f");
    reveal_strlit("g");
    reveal_strlit("h");
    reveal_strlit("i");
    reveal_strlit("j");
    reveal_strlit("k");
    reveal_strlit("l");
    reveal_strlit("m");
    reveal_strlit("n");
    reveal_strlit("o");
    reveal_strlit("p");
    reveal_strlit("q");
    reveal_strlit("r");
    reveal_strlit("s");
    reveal_strlit("t");
    reveal_strlit("u");
    reveal_strlit("v");
    reveal_strlit("w");
    reveal_strlit("x");
    reveal_strlit("y");
    reveal_strlit("z");
    reveal_strlit("1");
    reveal_strlit("2");
    reveal_strlit("3");
    reveal_strlit("4");
    reveal_strlit("5");
    reveal_strlit("6");
    reveal_strlit("7");
    reveal_strlit("8");
    reveal_strlit("9");
    reveal_strlit("0");
    reveal_strlit("\n");
    reveal_strlit(" ");
    reveal_strlit("-");
    reveal_strlit("=");
    let t = KEYCODE_OF_KEY@;
    if lookup_name(t, seq![c], SDLK_UNKNOWN) != SDLK_UNKNOWN {
        let i = lemma_lookup_name_found(t, seq![c], SDLK_UNKNOWN);
        assert(t[i].0@[0] == c);
        assert(forall|j: int|
            0 <= j < t.len() ==> (#[trigger] t[j]).1 == (if t[j].0@[0] == '\n' {
                13u32
            } else {
                t[j].0@[0] as u32
            }));
    }
}

} // verus!
