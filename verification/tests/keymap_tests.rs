use hyperwarp::keymap::{
    decode_keyevent_code, decode_keyevent_code_int, decode_keyevent_code_to_evdev, decode_keyevent_key,
    decode_keyevent_key_int, is_unknown_keycode_u32, is_unknown_scancode_u32, is_unknwon, map_key_code_to_scancode_cursed,
    map_key_code_to_scancode_cursed_u32, map_keycode_to_scancode, SDLK_LSHIFT, WEB_BTN_TO_LINUX_BUTTON,
};

#[test]
fn browser_codes_to_scancodes() {
    assert_eq!(decode_keyevent_code("KeyA"), 4);
    assert_eq!(decode_keyevent_code("KeyZ"), 29);
    assert_eq!(decode_keyevent_code("Digit0"), 39);
    assert_eq!(decode_keyevent_code("Enter"), 40);
    assert_eq!(decode_keyevent_code("NumLock"), 156); // SDL_SCANCODE_CLEAR
    assert_eq!(decode_keyevent_code("NumpadDecimal"), 76); // SDL_SCANCODE_DELETE
    assert_eq!(decode_keyevent_code("Unidentified"), 0);
    assert_eq!(decode_keyevent_code("NoSuchKey"), 0);
    assert_eq!(decode_keyevent_code_int("ArrowUp"), 82);
}

#[test]
fn browser_keys_to_keycodes() {
    assert_eq!(decode_keyevent_key("a"), 97);
    assert_eq!(decode_keyevent_key("0"), 48);
    assert_eq!(decode_keyevent_key("\n"), 13);
    assert_eq!(decode_keyevent_key(" "), 32);
    assert_eq!(decode_keyevent_key("="), 61);
    assert_eq!(decode_keyevent_key("A"), 0);
    assert_eq!(decode_keyevent_key_int("-"), 45);
}

#[test]
fn keycodes_to_scancodes() {
    assert_eq!(map_keycode_to_scancode(97), 4);
    assert_eq!(map_keycode_to_scancode(SDLK_LSHIFT), 225);
    assert_eq!(map_keycode_to_scancode(1073741922), 98); // keypad 0
    assert_eq!(map_keycode_to_scancode(27), 0); // escape has no scancode here
    assert_eq!(map_key_code_to_scancode_cursed(0), 0);
    assert_eq!(map_key_code_to_scancode_cursed_u32(122), 29);
}

#[test]
fn unknown_codes() {
    assert!(is_unknwon(0));
    assert!(!is_unknwon(4));
    assert!(is_unknown_keycode_u32(0));
    assert!(!is_unknown_keycode_u32(97));
    assert!(is_unknown_scancode_u32(0));
    assert!(!is_unknown_scancode_u32(4));
}

#[test]
fn browser_codes_to_evdev() {
    assert_eq!(decode_keyevent_code_to_evdev("KeyA"), 30);
    assert_eq!(decode_keyevent_code_to_evdev("Escape"), 1);
    assert_eq!(decode_keyevent_code_to_evdev("F24"), 194);
    assert_eq!(decode_keyevent_code_to_evdev("MediaFastForward"), 208);
    assert_eq!(decode_keyevent_code_to_evdev("IntlYen"), 124);
    assert_eq!(decode_keyevent_code_to_evdev("Select"), 0);
    assert_eq!(decode_keyevent_code_to_evdev("Nope"), 0);
}

#[test]
fn web_buttons_to_linux() {
    assert_eq!(WEB_BTN_TO_LINUX_BUTTON, [0x110, 0x112, 0x111, 0x116, 0x115]);
}
