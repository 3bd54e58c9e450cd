use hyperwarp::input::{convert_update_to_sdl_form, GamepadInitializationSpecs, GamepadState};
use hyperwarp::input::{
    clamp_i32, create_init_keyboard_state, get_btns_for_virtual_gamepad, ilog2_u8, sdl2_translate_mouse_state,
    CanModifyWithInputManager, CreatableFromInputManager, Gamepad, InputManager, Keyboard, Mouse, SdlEvent,
    Timestampable, WithInputManagerBuilder,
};
use hyperwarp::keymap::{SDLK_LCTRL, SDLK_LSHIFT, SDLK_RALT};
use hyperwarp::protocol::{GameControllerType, InputContext, InputEvent, InputEventPayload, InputMetadata, UsbIdentification};

fn changes(m: &InputManager) -> Vec<(u8, bool)> {
    m.event_queue
        .iter()
        .map(|e| match e.payload {
            InputEventPayload::MouseButtonsChange { change, state } => (change, state),
            _ => panic!("not a button change"),
        })
        .collect()
}

#[test]
fn fresh_devices() {
    let m = Mouse::new();
    assert_eq!((m.x, m.y, m.buttons), (0, 0, 0));
    let k = Keyboard::new();
    assert!(k.keycodes_state.is_empty());
    assert!(k.sdl2_virt_array.iter().all(|b| *b == 0));
    assert!(create_init_keyboard_state().is_empty());
}

#[test]
fn key_read_after_write() {
    let mut k = Keyboard::new();
    assert_eq!(k.set_key(97, true), None);
    assert!(k.get_keycode_state(97));
    assert!(!k.get_keycode_state(98));
    assert_eq!(k.sdl2_virt_array[4], 1);
    assert_eq!(k.set_key(97, false), Some(true));
    assert!(!k.get_keycode_state(97));
    assert_eq!(k.sdl2_virt_array[4], 0);
    // a key without a scancode leaves the array alone
    k.set_key(27, true);
    assert!(k.get_keycode_state(27));
    assert!(k.sdl2_virt_array.iter().all(|b| *b == 0));
}

#[test]
fn reset_forgets_keys() {
    let mut k = Keyboard::new();
    k.set_key(97, true);
    k.reset();
    assert!(k.keycodes_state.is_empty());
    assert!(k.sdl2_virt_array.iter().all(|b| *b == 0));
}

#[test]
fn modifiers_follow_held_keys() {
    let mut k = Keyboard::new();
    assert_eq!(k.calc_modifiers(), 0);
    k.set_key(SDLK_LSHIFT, true);
    k.set_key(SDLK_LCTRL, true);
    k.set_key(SDLK_RALT, true);
    assert_eq!(k.calc_modifiers(), 0x0001 | 0x0040 | 0x0200);
    k.set_key(SDLK_LCTRL, false);
    assert_eq!(k.calc_modifiers(), 0x0001 | 0x0200);
}

#[test]
fn first_press_is_only_recorded() {
    let mut m = InputManager::new();
    m.set_key(97, true, Some(5));
    assert!(m.event_queue.is_empty());
    assert!(m.keyboard.get_keycode_state(97));
    m.set_key(97, true, Some(6));
    assert!(m.event_queue.is_empty());
    m.set_key(97, false, Some(7));
    assert_eq!(m.event_queue.len(), 1);
    let e = &m.event_queue[0];
    assert_eq!(e.payload, InputEventPayload::KeyEvent { key: 97, scancode: 0, state: false, modifiers: 0 });
    assert_eq!(e.metadata.sdl2_timestamp_ticks, Some(7));
    assert_eq!(e.metadata.sdl2_timestamp_ticks_u64, Some(7));
    assert_eq!(e.context, Some(InputContext { modifiers: 0, buttons: 0, mouse_x: 0, mouse_y: 0 }));
}

#[test]
fn key_event_carries_modifiers() {
    let mut m = InputManager::new();
    m.set_key(SDLK_LSHIFT, true, None);
    m.set_key(97, false, None);
    m.set_key(97, true, None);
    assert_eq!(m.event_queue.len(), 1);
    assert_eq!(m.event_queue[0].payload, InputEventPayload::KeyEvent { key: 97, scancode: 0, state: true, modifiers: 1 });
    assert_eq!(m.event_queue[0].metadata, InputMetadata::new());
}

#[test]
fn absolute_moves_are_clamped() {
    let mut m = InputManager::new();
    m.move_mouse_absolute(50, 60, None, None);
    assert_eq!((m.mouse.x, m.mouse.y), (0, 0));
    assert!(m.event_queue.is_empty());
    m.move_mouse_absolute(500, -3, Some((100, 80)), None);
    assert_eq!((m.mouse.x, m.mouse.y), (100, 0));
    m.move_mouse_absolute(40, 30, Some((100, 80)), None);
    assert_eq!(m.event_queue[1].payload, InputEventPayload::MouseMoveAbsolute(40, 30, -60, 30));
    assert_eq!(m.event_queue[1].context.unwrap().mouse_x, 40);
}

#[test]
fn relative_moves() {
    let mut m = InputManager::new();
    m.move_mouse_relative(5, 7, None, Some(1));
    assert_eq!((m.mouse.x, m.mouse.y), (5, 7));
    assert_eq!(m.event_queue[0].payload, InputEventPayload::MouseMoveRelative { x: 5, y: 7, x_absolute: 5, y_absolute: 7 });
    // clamped at the frame's edge: the event keeps the requested motion
    m.move_mouse_relative(-20, 100, Some((50, 50)), None);
    assert_eq!((m.mouse.x, m.mouse.y), (0, 50));
    assert_eq!(m.event_queue[1].payload, InputEventPayload::MouseMoveRelative { x: -20, y: 100, x_absolute: 0, y_absolute: 50 });
    // no movement, no event
    m.move_mouse_relative(-1, 1, Some((50, 50)), None);
    assert_eq!(m.event_queue.len(), 2);
}

#[test]
fn buttons_release_then_press_in_bit_order() {
    let mut m = InputManager::new();
    m.set_mouse_buttons(0b0000_0101, None);
    assert_eq!(changes(&m), vec![(1, true), (4, true)]);
    m.event_queue.clear();
    m.set_mouse_buttons(0b1000_0010, None);
    assert_eq!(changes(&m), vec![(1, false), (4, false), (2, true), (128, true)]);
    assert_eq!(m.mouse.buttons, 0b1000_0010);
    // contexts show the buttons held before the change
    assert_eq!(m.event_queue[0].context.unwrap().buttons, 0b0000_0101);
    m.event_queue.clear();
    m.set_mouse_buttons(0b1000_0010, None);
    assert!(m.event_queue.is_empty());
}

#[test]
fn replaying_button_changes_gives_the_new_buttons() {
    let mut m = InputManager::new();
    m.set_mouse_buttons(0b0110_1001, None);
    m.event_queue.clear();
    let old = m.mouse.buttons;
    m.set_mouse_buttons(0b1010_0110, None);
    let replayed = changes(&m).iter().fold(old, |b, (c, s)| if *s { b | c } else { b & !c });
    assert_eq!(replayed, 0b1010_0110);
}

#[test]
fn drain_removes_relative_motion_only() {
    let mut m = InputManager::new();
    m.move_mouse_relative(1, 1, None, None);
    m.push_event(InputEvent::new(InputEventPayload::KeyEventLite { key: 1, state: true }));
    m.move_mouse_relative(1, 1, None, None);
    m.move_mouse_absolute(3, 3, Some((10, 10)), None);
    m.drain_mouse_motion();
    assert_eq!(m.event_queue.len(), 2);
    assert_eq!(m.event_queue[0].payload, InputEventPayload::KeyEventLite { key: 1, state: true });
    assert_eq!(m.event_queue[1].payload, InputEventPayload::MouseMoveAbsolute(3, 3, 1, 1));
    m.drain_mouse_motion();
    assert_eq!(m.event_queue.len(), 2);
}

#[test]
fn process_event_dispatches() {
    let mut m = InputManager::new();
    m.process_event(InputEvent::new(InputEventPayload::MouseButtonsSet { buttons: 2 }), None, None);
    assert_eq!(m.mouse.buttons, 2);
    m.process_event(InputEvent::new(InputEventPayload::MouseButtonsChange { change: 1, state: true }), None, None);
    assert_eq!(m.mouse.buttons, 3);
    m.process_event(InputEvent::new(InputEventPayload::MouseButtonsChange { change: 2, state: false }), None, None);
    assert_eq!(m.mouse.buttons, 1);
    m.process_event(InputEvent::new(InputEventPayload::MouseMoveRelative { x: 4, y: 2, x_absolute: -1, y_absolute: -1 }), None, None);
    assert_eq!((m.mouse.x, m.mouse.y), (4, 2));
    m.process_event(InputEvent::new(InputEventPayload::MouseMoveAbsolute(9, 9, 0, 0)), Some((5, 5)), None);
    assert_eq!((m.mouse.x, m.mouse.y), (5, 5));
    m.process_event(InputEvent::new(InputEventPayload::KeyEvent { key: 97, scancode: 4, state: true, modifiers: 0 }), None, None);
    assert!(m.keyboard.get_keycode_state(97));
    m.event_queue.clear();
    let other = InputEvent::new(InputEventPayload::JoystickButton { id: "pad".to_string(), button: 3, pressed: true });
    m.process_event(other, None, Some(99));
    assert_eq!(m.event_queue.len(), 1);
    assert_eq!(m.event_queue[0].payload, InputEventPayload::JoystickButton { id: "pad".to_string(), button: 3, pressed: true });
    assert_eq!(m.event_queue[0].metadata.sdl2_timestamp_ticks, Some(99));
    assert_eq!(m.event_queue[0].context, None);
}

#[test]
fn flush_builds_sdl_events() {
    let mut m = InputManager::new();
    m.set_key(97, true, Some(1));
    m.set_key(97, false, Some(2));
    m.move_mouse_relative(3, 4, None, Some(3));
    m.set_mouse_buttons(4, Some(4));
    m.push_event(InputEvent::new(InputEventPayload::MouseMoveAbsolute(1, 1, 0, 0)));
    m.push_event(InputEvent::new(InputEventPayload::KeyEventLite { key: 2, state: true }));
    let out = m.flush_queue(true, 77);
    assert!(m.event_queue.is_empty());
    assert_eq!(
        out,
        vec![
            SdlEvent::Key { pressed: false, timestamp: 2, window_id: 77, keycode: 97, modifiers: 0 },
            SdlEvent::MouseMotion { timestamp: 3, window_id: 77, state: 0, x: 3, y: 4, xrel: 3, yrel: 4 },
            SdlEvent::MouseButton { pressed: true, timestamp: 4, window_id: 77, button: 2, x: 3, y: 4 },
        ]
    );
}

#[test]
fn flush_without_sdl_only_empties() {
    let mut m = InputManager::new();
    m.set_mouse_buttons(1, None);
    assert!(m.flush_queue(false, 1).is_empty());
    assert!(m.event_queue.is_empty());
}

#[test]
fn gamepads() {
    let mut m = InputManager::new();
    let pad = Gamepad::from_product_type("pad".to_string(), GameControllerType::PS4);
    assert_eq!(pad.usb_id, UsbIdentification::new_ps4());
    assert_eq!(pad.id.len(), 36);
    assert_eq!(pad.id.as_bytes()[14], b'4');
    assert_eq!(pad.id.chars().filter(|c| *c == '-').count(), 4);
    let other = Gamepad::new("other".to_string(), UsbIdentification::new_unknown(), GameControllerType::Unknown);
    assert_ne!(pad.id, other.id);
    assert_eq!(m.add_gamepad(pad), 0);
    assert_eq!(m.add_gamepad(other), 1);
    assert_eq!(m.count_gamepads(), 2);
    assert_eq!(m.get_gamepad(1).unwrap().name, "other");
    assert!(m.get_gamepad(2).is_none());
    m.remove_gamepad(0);
    assert_eq!(m.count_gamepads(), 1);
    assert_eq!(m.get_gamepad(0).unwrap().name, "other");
    assert!(Gamepad::generate_id().chars().all(|c| c == '-' || c.is_ascii_hexdigit() && !c.is_ascii_uppercase()));
}

#[test]
fn small_helpers() {
    assert_eq!(ilog2_u8(1), 0);
    assert_eq!(ilog2_u8(2), 1);
    assert_eq!(ilog2_u8(3), 1);
    assert_eq!(ilog2_u8(128), 7);
    assert_eq!(ilog2_u8(255), 7);
    assert_eq!(clamp_i32(-5, 0, 10), 0);
    assert_eq!(clamp_i32(15, 0, 10), 10);
    assert_eq!(clamp_i32(7, 0, 10), 7);
    assert_eq!(get_btns_for_virtual_gamepad(4), 21);
    assert_eq!(get_btns_for_virtual_gamepad(30), 30);
    assert_eq!(sdl2_translate_mouse_state(9), 9);
}

#[test]
fn timestamps_and_contexts() {
    let mut md = InputMetadata::new();
    md.timestamp(None);
    assert_eq!(md, InputMetadata::new());
    md.timestamp(Some(12));
    assert_eq!(md.sdl2_timestamp_ticks, Some(12));
    assert_eq!(md.sdl2_timestamp_ticks_u64, Some(12));
    assert_eq!(md.sdl3_timestamp_ticks, None);
    let mut m = InputManager::new();
    m.set_mouse_buttons(6, None);
    m.move_mouse_relative(2, 3, None, None);
    let ctx = InputContext::from_input_manager(&m);
    assert_eq!(ctx, InputContext { modifiers: 0, buttons: 6, mouse_x: 2, mouse_y: 3 });
    let mut e = InputEvent::new(InputEventPayload::MouseButtonsSet { buttons: 0 });
    e.modify_with_input_manager(&m);
    assert_eq!(e.context, Some(ctx));
    let e2 = InputEvent::new(InputEventPayload::MouseButtonsSet { buttons: 0 }).with_input_manager(&m);
    assert_eq!(e2.context, Some(ctx));
    let mut e3 = InputEvent::new(InputEventPayload::MouseButtonsSet { buttons: 0 });
    m.add_context_to(&mut e3);
    assert_eq!(e3.context, Some(ctx));
    let t = InputManager::new_timestamped_input_event(InputEventPayload::MouseButtonsSet { buttons: 1 }, Some(3));
    assert_eq!(t.metadata.sdl2_timestamp_ticks, Some(3));
    assert_eq!(t.context, None);
}

#[test]
fn unnamed_button_changes_are_dropped_without_sdl_event() {
    let mut m = InputManager::new();
    m.push_event(InputEvent::new(InputEventPayload::MouseButtonsChange { change: 0, state: true }));
    assert!(m.flush_queue(false, 1).is_empty());
    assert!(m.event_queue.is_empty());
    m.push_event(InputEvent::new(InputEventPayload::MouseButtonsChange { change: 0, state: true }));
    assert!(m.flush_queue(true, 1).is_empty());
    assert!(m.event_queue.is_empty());
}

#[test]
fn browser_controller_updates_in_sdl_form() {
    let e = InputEvent::new(InputEventPayload::JoystickBrowserUpdate {
        id: "pad".to_string(),
        axis: vec![0.5f64.to_bits(), 1.0f64.to_bits()],
        buttons: vec![true, false, true],
    });
    let s = convert_update_to_sdl_form(&e);
    assert_eq!(s.axes, vec![0, 0]);
    assert_eq!(s.buttons.len(), 21);
    assert_eq!(&s.buttons[..4], &[true, false, true, false]);
    assert!(s.buttons[3..].iter().all(|b| !b));
    assert!(s.hats.is_empty());
    let many = InputEvent::new(InputEventPayload::JoystickBrowserUpdate {
        id: "pad".to_string(),
        axis: vec![],
        buttons: vec![true; 30],
    });
    let s = convert_update_to_sdl_form(&many);
    assert_eq!(s.buttons.len(), 30);
    assert_eq!(s.buttons.iter().filter(|b| **b).count(), 5);
    let rest = GamepadState::from_gamepad_init_specs(GamepadInitializationSpecs { axes: 1, buttons: 2, hats: 3 });
    assert_eq!(rest, GamepadState { axes: vec![0], buttons: vec![false, false], hats: vec![0, 0, 0] });
}
