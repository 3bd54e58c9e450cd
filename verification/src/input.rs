//! The input manager: the mouse, keyboard and controllers that the host
//! presents to the application, and the queue of events it synthesises.
use std::collections::HashMap;
use vstd::prelude::*;
use crate::keymap::{SDLK_LSHIFT, SDLK_RSHIFT, SDLK_LCTRL, SDLK_RCTRL, SDLK_LALT, SDLK_RALT, map_key_code_to_scancode_cursed_u32, is_unknown_scancode_u32, SCANCODE_OF_KEYCODE, SDL_SCANCODE_UNKNOWN};
use crate::text::lookup_code;
use crate::protocol::{GameControllerType, UsbIdentification, usb_id_of, InputContext, InputEvent, InputEventPayload, InputMetadata, blank_metadata};

verus! {

broadcast use vstd::std_specs::hash::group_hash_axioms;

/// The mouse as the application sees it.
pub struct Mouse {
    pub x: i32,
    pub y: i32,
    pub buttons: u8,
}

impl Mouse {
    /// A mouse at the origin with no button held.
    pub fn new() -> (r: Mouse)
        ensures
            r.x == 0,
            r.y == 0,
            r.buttons == 0,
    {
        Mouse { x: 0, y: 0, buttons: 0 }
    }
}

/// Number of entries of SDL's keyboard state array.
pub const SDL2_VIRT_ARRAY_LEN: usize = 513;

/// The keyboard as the application sees it: which keycodes are held, and the
/// SDL keyboard-state array indexed by scancode (1 held, 0 released).
pub struct Keyboard {
    pub keycodes_state: HashMap<u32, bool>,
    pub sdl2_virt_array: [u8; 513],
}

/// A keyboard state in which no key has been recorded.
pub fn create_init_keyboard_state() -> (r: HashMap<u32, bool>)
    ensures
        r@ == Map::<u32, bool>::empty(),
{
    HashMap::new()
}

/// Whether the keyboard state records `keycode` as held.
pub open spec fn key_held(state: Map<u32, bool>, keycode: u32) -> bool {
    state.contains_key(keycode) && state[keycode]
}

impl Keyboard {
    /// A keyboard with no key recorded and every scancode released.
    pub fn new() -> (r: Keyboard)
        ensures
            r.keycodes_state@ == Map::<u32, bool>::empty(),
            forall|i: int| 0 <= i < 513 ==> r.sdl2_virt_array@[i] == 0,
    {
        Keyboard { keycodes_state: create_init_keyboard_state(), sdl2_virt_array: [0u8; 513] }
    }

    /// Forgets every key and releases every scancode.
    pub fn reset(&mut self)
        ensures
            final(self).keycodes_state@ == Map::<u32, bool>::empty(),
            forall|i: int| 0 <= i < 513 ==> final(self).sdl2_virt_array@[i] == 0,
    {
        self.keycodes_state = create_init_keyboard_state();
        let mut i: usize = 0;
        while i < 513
            invariant
                i <= 513,
                self.keycodes_state@ == Map::<u32, bool>::empty(),
                forall|j: int| 0 <= j < i ==> self.sdl2_virt_array@[j] == 0,
            decreases 513 - i,
        {
            self.sdl2_virt_array[i] = 0;
            i = i + 1;
        }
    }

    /// Records `key` as held or released. Returns the state recorded before,
    /// if any. Where the key has a scancode, its entry of the SDL array follows.
    pub fn set_key(&mut self, key: u32, state: bool) -> (r: Option<bool>)
        ensures
            final(self).keycodes_state@ == old(self).keycodes_state@.insert(key, state),
            r == (if old(self).keycodes_state@.contains_key(key) {
                Some(old(self).keycodes_state@[key])
            } else {
                None::<bool>
            }),
            ({
                let sc = lookup_code(SCANCODE_OF_KEYCODE@, key, SDL_SCANCODE_UNKNOWN);
                forall|i: int| 0 <= i < 513 ==> final(self).sdl2_virt_array@[i] == (
                    if sc != SDL_SCANCODE_UNKNOWN && i == sc {
                        (if state { 1u8 } else { 0u8 })
                    } else {
                        old(self).sdl2_virt_array@[i]
                    })
            }),
    {
        let output = self.keycodes_state.insert(key, state);
        let sdl_scancode_u32 = map_key_code_to_scancode_cursed_u32(key);
        if !is_unknown_scancode_u32(sdl_scancode_u32) {
            if sdl_scancode_u32 < 513 {
                self.sdl2_virt_array[sdl_scancode_u32 as usize] = if state { 1 } else { 0 };
            }
        }
        output
    }

    /// Whether `keycode` is recorded as held.
    pub fn get_keycode_state(&self, keycode: u32) -> (r: bool)
        ensures
            r == key_held(self.keycodes_state@, keycode),
    {
        match self.keycodes_state.get(&keycode) {
            Some(b) => *b,
            None => false,
        }
    }

    /// The SDL modifier mask of the held modifier keys.
    pub fn calc_modifiers(&self) -> (r: u16)
        ensures
            r == modifier_mask(self.keycodes_state@),
    {
        let t1: u16 = if self.get_keycode_state(SDLK_LSHIFT) { 0x0001 } else { 0 };
        let t2: u16 = if self.get_keycode_state(SDLK_RSHIFT) { 0x0002 } else { 0 };
        let t3: u16 = if self.get_keycode_state(SDLK_LCTRL) { 0x0040 } else { 0 };
        let t4: u16 = if self.get_keycode_state(SDLK_RCTRL) { 0x0080 } else { 0 };
        let t5: u16 = if self.get_keycode_state(SDLK_LALT) { 0x0100 } else { 0 };
        let t6: u16 = if self.get_keycode_state(SDLK_RALT) { 0x0200 } else { 0 };
        let mut modifiers: u16 = 0;
        modifiers = modifiers | t1;
        modifiers = modifiers | t2;
        modifiers = modifiers | t3;
        modifiers = modifiers | t4;
        modifiers = modifiers | t5;
        modifiers = modifiers | t6;
        assert(modifiers == t1 + t2 + t3 + t4 + t5 + t6) by (bit_vector)
            requires
                t1 == 0 || t1 == 1,
                t2 == 0 || t2 == 2,
                t3 == 0 || t3 == 0x40,
                t4 == 0 || t4 == 0x80,
                t5 == 0 || t5 == 0x100,
                t6 == 0 || t6 == 0x200,
                modifiers == (((((0u16 | t1) | t2) | t3) | t4) | t5) | t6;
        modifiers
    }
}

/// The SDL modifier mask of the modifier keys held in a keyboard state:
/// left/right shift, control and alt each set their own bit.
pub open spec fn modifier_mask(state: Map<u32, bool>) -> u16 {
    ((if key_held(state, SDLK_LSHIFT) { 0x0001int } else { 0 })
        + (if key_held(state, SDLK_RSHIFT) { 0x0002int } else { 0 })
        + (if key_held(state, SDLK_LCTRL) { 0x0040int } else { 0 })
        + (if key_held(state, SDLK_RCTRL) { 0x0080int } else { 0 })
        + (if key_held(state, SDLK_LALT) { 0x0100int } else { 0 })
        + (if key_held(state, SDLK_RALT) { 0x0200int } else { 0 })) as u16
}

/// Whether `c` is a lowercase hexadecimal digit.
pub open spec fn is_lower_hex(c: char) -> bool {
    ('0' <= c && c <= '9') || ('a' <= c && c <= 'f')
}

/// Whether `s` is the hyphenated lowercase text of a random (version 4) UUID:
/// 36 characters, hyphens at 8, 13, 18 and 23, a `4` at 14, hex digits elsewhere.
pub open spec fn is_v4_uuid_text(s: Seq<char>) -> bool {
    &&& s.len() == 36
    &&& forall|i: int| 0 <= i < 36 ==> (if i == 8 || i == 13 || i == 18 || i == 23 {
        s[i] == '-'
    } else {
        is_lower_hex(#[trigger] s[i])
    })
    &&& s[14] == '4'
}

/// A virtual controller.
pub struct Gamepad {
    pub name: String,
    pub usb_id: UsbIdentification,
    pub product_type: GameControllerType,
    pub id: String,
}

impl Gamepad {
    /// A fresh random identifier: `uuid::Uuid::new_v4` shown with `to_string`.
    /// Trusted: the uuid crate draws 122 random bits from the operating system
    /// and `Display` writes them hyphenated in lowercase with the version digit
    /// `4` at position 14; nothing is said of which identifier comes out.
    #[verifier::external_body]
    pub fn generate_id() -> (r: String)
        ensures
            is_v4_uuid_text(r@),
    {
        uuid::Uuid::new_v4().to_string()
    }

    /// A controller with a fresh random identifier.
    pub fn new(name: String, usb_id: UsbIdentification, product_type: GameControllerType) -> (r: Gamepad)
        ensures
            r.name == name,
            r.usb_id == usb_id,
            r.product_type == product_type,
            is_v4_uuid_text(r.id@),
    {
        Gamepad { name, usb_id, product_type, id: Gamepad::generate_id() }
    }

    /// A controller that presents the USB identity of its type.
    pub fn from_product_type(name: String, product_type: GameControllerType) -> (r: Gamepad)
        ensures
            r.name == name,
            r.usb_id == usb_id_of(product_type),
            r.product_type == product_type,
            is_v4_uuid_text(r.id@),
    {
        Gamepad::new(name, UsbIdentification::from_product_type(product_type), product_type)
    }
}

/// Metadata stamped with an SDL tick reading, where SDL is in use: both SDL2
/// tick fields take the reading; the rest stays.
pub open spec fn stamp(md: InputMetadata, sdl2_ticks: Option<u32>) -> InputMetadata {
    match sdl2_ticks {
        Some(t) => InputMetadata {
            sdl2_timestamp_ticks: Some(t),
            sdl2_timestamp_ticks_u64: Some(t as u64),
            ..md
        },
        None => md,
    }
}

/// Something that can be stamped with the time.
pub trait Timestampable {
    /// Stamps with an SDL tick reading (`None` where SDL is not in use).
    fn timestamp(&mut self, sdl2_ticks: Option<u32>);
}

impl Timestampable for InputMetadata {
    fn timestamp(&mut self, sdl2_ticks: Option<u32>)
        ensures
            *final(self) == stamp(*old(self), sdl2_ticks),
    {
        match sdl2_ticks {
            Some(t) => {
                self.sdl2_timestamp_ticks = Some(t);
                self.sdl2_timestamp_ticks_u64 = Some(t as u64);
            },
            None => {},
        }
    }
}

/// The input manager: devices and the queue of events to hand to the application.
pub struct InputManager {
    pub mouse: Mouse,
    pub keyboard: Keyboard,
    pub gamepads: Vec<Gamepad>,
    pub gamepads_locked: bool,
    pub event_queue: Vec<InputEvent>,
    pub event_queue_joystick_metaops: Vec<InputEvent>,
}

/// The context that the manager gives the events it emits.
pub open spec fn context_of(m: InputManager) -> InputContext {
    InputContext {
        modifiers: modifier_mask(m.keyboard.keycodes_state@),
        buttons: m.mouse.buttons,
        mouse_x: m.mouse.x,
        mouse_y: m.mouse.y,
    }
}

/// An event the manager emits: the payload, stamped, with a context.
pub open spec fn synthesized(payload: InputEventPayload, sdl2_ticks: Option<u32>, ctx: InputContext) -> InputEvent {
    InputEvent { payload, metadata: stamp(blank_metadata(), sdl2_ticks), context: Some(ctx) }
}

/// `v` brought into `[lo, hi]`.
pub open spec fn clamp(v: int, lo: int, hi: int) -> int {
    if v < lo {
        lo
    } else if v > hi {
        hi
    } else {
        v
    }
}

/// `v` brought into `[lo, hi]`; `lo <= hi`.
pub fn clamp_i32(v: i32, lo: i32, hi: i32) -> (r: i32)
    requires
        lo <= hi,
    ensures
        r == clamp(v as int, lo as int, hi as int),
{
    if v < lo {
        lo
    } else if v > hi {
        hi
    } else {
        v
    }
}

/// The devices other than the mouse are as they were.
pub open spec fn keeps_other_devices(old: InputManager, new: InputManager) -> bool {
    &&& new.keyboard == old.keyboard
    &&& new.gamepads@ == old.gamepads@
    &&& new.gamepads_locked == old.gamepads_locked
    &&& new.event_queue_joystick_metaops@ == old.event_queue_joystick_metaops@
}

/// Whether an absolute move to `(x, y)` can be made without overflow: the
/// framebuffer size fits `i32` and the motion relative to the old position too.
pub open spec fn absolute_move_ok(m: InputManager, x: i32, y: i32, fb_size: Option<(u32, u32)>) -> bool {
    match fb_size {
        Some((w, h)) => {
            &&& w <= i32::MAX
            &&& h <= i32::MAX
            &&& i32::MIN <= clamp(x as int, 0, w as int) - m.mouse.x <= i32::MAX
            &&& i32::MIN <= clamp(y as int, 0, h as int) - m.mouse.y <= i32::MAX
        },
        None => true,
    }
}

/// What an absolute move does: with a known framebuffer, the mouse goes to
/// `(x, y)` clamped to it and an absolute-motion event with the motion made is
/// queued; without one nothing changes.
pub open spec fn absolute_move_effect(
    old: InputManager,
    new: InputManager,
    x: i32,
    y: i32,
    fb_size: Option<(u32, u32)>,
    sdl2_ticks: Option<u32>,
) -> bool {
    match fb_size {
        Some((w, h)) => {
            let fx = clamp(x as int, 0, w as int);
            let fy = clamp(y as int, 0, h as int);
            &&& new.mouse.x == fx
            &&& new.mouse.y == fy
            &&& new.mouse.buttons == old.mouse.buttons
            &&& keeps_other_devices(old, new)
            &&& new.event_queue@ == old.event_queue@.push(synthesized(
                InputEventPayload::MouseMoveAbsolute(
                    fx as i32,
                    fy as i32,
                    (fx - old.mouse.x) as i32,
                    (fy - old.mouse.y) as i32,
                ),
                sdl2_ticks,
                context_of(new),
            ))
        },
        None => {
            &&& new.mouse == old.mouse
            &&& keeps_other_devices(old, new)
            &&& new.event_queue@ == old.event_queue@
        },
    }
}

/// Whether a relative move by `(x, y)` can be made without overflow.
pub open spec fn relative_move_ok(m: InputManager, x: i32, y: i32, fb_size: Option<(u32, u32)>) -> bool {
    &&& i32::MIN <= m.mouse.x + x <= i32::MAX
    &&& i32::MIN <= m.mouse.y + y <= i32::MAX
    &&& (fb_size matches Some((w, h)) ==> w <= i32::MAX && h <= i32::MAX)
}

/// Where a relative move by `(x, y)` takes the mouse: clamped to the
/// framebuffer where its size is known.
pub open spec fn relative_target(m: InputManager, x: i32, y: i32, fb_size: Option<(u32, u32)>) -> (int, int) {
    match fb_size {
        Some((w, h)) => (clamp(m.mouse.x + x, 0, w as int), clamp(m.mouse.y + y, 0, h as int)),
        None => (m.mouse.x + x, m.mouse.y + y),
    }
}

/// What a relative move does: where the target differs from the position the
/// mouse goes there and a relative-motion event, with the requested motion
/// and the new position, is queued; otherwise nothing changes.
pub open spec fn relative_move_effect(
    old: InputManager,
    new: InputManager,
    x: i32,
    y: i32,
    fb_size: Option<(u32, u32)>,
    sdl2_ticks: Option<u32>,
) -> bool {
    let (fx, fy) = relative_target(old, x, y, fb_size);
    if fx == old.mouse.x && fy == old.mouse.y {
        &&& new.mouse == old.mouse
        &&& keeps_other_devices(old, new)
        &&& new.event_queue@ == old.event_queue@
    } else {
        &&& new.mouse.x == fx
        &&& new.mouse.y == fy
        &&& new.mouse.buttons == old.mouse.buttons
        &&& keeps_other_devices(old, new)
        &&& new.event_queue@ == old.event_queue@.push(synthesized(
            InputEventPayload::MouseMoveRelative { x, y, x_absolute: fx as i32, y_absolute: fy as i32 },
            sdl2_ticks,
            context_of(new),
        ))
    }
}

/// The mouse-button masks, lowest bit first.
pub const BUTTON_MASKS: [u8; 8] = [1, 2, 4, 8, 16, 32, 64, 128];

/// The masks among the lowest `n` bits that are held in `old` and not in `new`,
/// lowest first.
pub open spec fn released_masks(old: u8, new: u8, n: int) -> Seq<u8>
    decreases n,
{
    if n <= 0 {
        seq![]
    } else {
        let m = BUTTON_MASKS@[n - 1];
        released_masks(old, new, n - 1) + (if old & m != 0 && new & m == 0 {
            seq![m]
        } else {
            seq![]
        })
    }
}

/// The masks among the lowest `n` bits that are held in `new` and not in `old`,
/// lowest first.
pub open spec fn pressed_masks(old: u8, new: u8, n: int) -> Seq<u8>
    decreases n,
{
    if n <= 0 {
        seq![]
    } else {
        let m = BUTTON_MASKS@[n - 1];
        pressed_masks(old, new, n - 1) + (if old & m == 0 && new & m != 0 {
            seq![m]
        } else {
            seq![]
        })
    }
}

/// The button-change events that take the buttons from `old` to `new`: one
/// release per button let go, then one press per button pressed, each in
/// ascending bit order.
pub open spec fn button_change_events(old: u8, new: u8, sdl2_ticks: Option<u32>, ctx: InputContext) -> Seq<InputEvent> {
    released_masks(old, new, 8).map_values(
        |m: u8| synthesized(InputEventPayload::MouseButtonsChange { change: m, state: false }, sdl2_ticks, ctx),
    ) + pressed_masks(old, new, 8).map_values(
        |m: u8| synthesized(InputEventPayload::MouseButtonsChange { change: m, state: true }, sdl2_ticks, ctx),
    )
}

/// The buttons after one button change: pressing sets the bits of `change`,
/// releasing clears them.
pub open spec fn apply_button_change(buttons: u8, change: u8, state: bool) -> u8 {
    if state {
        buttons | change
    } else {
        buttons & !change
    }
}

/// What recording a key does: the keyboard records it, and where the key was
/// recorded before with the other state a key event (scancode 0, modifiers and
/// context after the change) is queued.
pub open spec fn set_key_effect(old: InputManager, new: InputManager, key: u32, state: bool, sdl2_ticks: Option<u32>) -> bool {
    &&& new.keyboard.keycodes_state@ == old.keyboard.keycodes_state@.insert(key, state)
    &&& new.mouse == old.mouse
    &&& new.gamepads@ == old.gamepads@
    &&& new.gamepads_locked == old.gamepads_locked
    &&& new.event_queue_joystick_metaops@ == old.event_queue_joystick_metaops@
    &&& ({
        let sc = lookup_code(SCANCODE_OF_KEYCODE@, key, SDL_SCANCODE_UNKNOWN);
        forall|i: int| 0 <= i < 513 ==> new.keyboard.sdl2_virt_array@[i] == (
            if sc != SDL_SCANCODE_UNKNOWN && i == sc {
                (if state { 1u8 } else { 0u8 })
            } else {
                old.keyboard.sdl2_virt_array@[i]
            })
    })
    &&& new.event_queue@ == (if old.keyboard.keycodes_state@.contains_key(key)
        && old.keyboard.keycodes_state@[key] != state {
        old.event_queue@.push(synthesized(
            InputEventPayload::KeyEvent {
                key,
                scancode: 0,
                state,
                modifiers: modifier_mask(new.keyboard.keycodes_state@),
            },
            sdl2_ticks,
            context_of(new),
        ))
    } else {
        old.event_queue@
    })
}

/// What setting the mouse buttons does: the buttons become `buttons`, and
/// where they change the button-change events (in the context before the
/// change) are queued.
pub open spec fn set_buttons_effect(old: InputManager, new: InputManager, buttons: u8, sdl2_ticks: Option<u32>) -> bool {
    &&& new.mouse.buttons == buttons
    &&& new.mouse.x == old.mouse.x
    &&& new.mouse.y == old.mouse.y
    &&& keeps_other_devices(old, new)
    &&& new.event_queue@ == old.event_queue@ + (if old.mouse.buttons != buttons {
        button_change_events(old.mouse.buttons, buttons, sdl2_ticks, context_of(old))
    } else {
        seq![]
    })
}

/// The queue without relative mouse motion, in order.
pub open spec fn without_relative_motion(q: Seq<InputEvent>) -> Seq<InputEvent>
    decreases q.len(),
{
    if q.len() == 0 {
        seq![]
    } else {
        without_relative_motion(q.drop_last()) + (if q.last().payload is MouseMoveRelative {
            seq![]
        } else {
            seq![q.last()]
        })
    }
}

/// `floor(log2(v))` for `v >= 1`.
pub open spec fn log2_floor(v: nat) -> nat
    decreases v,
{
    if v < 2 {
        0
    } else {
        1 + log2_floor(v / 2)
    }
}

/// `floor(log2(v))` is below `v` for `v >= 1`.
pub proof fn lemma_log2_floor_below(v: nat)
    requires
        v >= 1,
    ensures
        log2_floor(v) < v,
    decreases v,
{
    if v >= 2 {
        lemma_log2_floor_below(v / 2);
    }
}

/// The index of the highest set bit of `v`; `v` must not be 0.
pub fn ilog2_u8(v: u8) -> (r: u8)
    requires
        v != 0,
    ensures
        r == log2_floor(v as nat),
{
    let mut x: u8 = v;
    let mut r: u8 = 0;
    proof {
        lemma_log2_floor_below(v as nat);
    }
    while x >= 2
        invariant
            1 <= x <= v,
            r + log2_floor(x as nat) == log2_floor(v as nat),
            log2_floor(v as nat) < v,
        decreases x,
    {
        x = x / 2;
        r = r + 1;
    }
    r
}

/// An SDL event to push into the application, as the input manager builds it
/// from a queued event. The window and the timestamps are SDL's; the key's
/// scancode is left for SDL to look up from `keycode`.
#[derive(Debug, Clone, Copy, PartialEq, Eq, Structural)]
pub enum SdlEvent {
    /// `SDL_KEYDOWN` when `pressed`, else `SDL_KEYUP`.
    Key { pressed: bool, timestamp: u32, window_id: u32, keycode: u32, modifiers: u16 },
    /// `SDL_MOUSEMOTION`.
    MouseMotion { timestamp: u32, window_id: u32, state: u32, x: i32, y: i32, xrel: i32, yrel: i32 },
    /// `SDL_MOUSEBUTTONDOWN` when `pressed`, else `SDL_MOUSEBUTTONUP`.
    MouseButton { pressed: bool, timestamp: u32, window_id: u32, button: u8, x: i32, y: i32 },
}

/// The SDL2 tick stamp of an event, 0 where it has none.
pub open spec fn event_ticks(e: InputEvent) -> u32 {
    match e.metadata.sdl2_timestamp_ticks {
        Some(t) => t,
        None => 0,
    }
}

/// The SDL event that a queued event becomes while SDL2 is in use: keys become
/// key events; motion and button changes with a context become motion and
/// button events (a button is named by the index of the changed bit); anything
/// else becomes nothing.
pub open spec fn sdl_event_for(e: InputEvent, window_id: u32) -> Option<SdlEvent> {
    match e.payload {
        InputEventPayload::KeyEvent { key, scancode, state, modifiers } => Some(SdlEvent::Key {
            pressed: state,
            timestamp: event_ticks(e),
            window_id,
            keycode: key,
            modifiers,
        }),
        InputEventPayload::MouseMoveRelative { x, y, x_absolute, y_absolute } => match e.context {
            Some(c) => Some(SdlEvent::MouseMotion {
                timestamp: event_ticks(e),
                window_id,
                state: c.buttons as u32,
                x: x_absolute,
                y: y_absolute,
                xrel: x,
                yrel: y,
            }),
            None => None,
        },
        InputEventPayload::MouseMoveAbsolute(x, y, rel_x, rel_y) => match e.context {
            Some(c) => Some(SdlEvent::MouseMotion {
                timestamp: event_ticks(e),
                window_id,
                state: c.buttons as u32,
                x,
                y,
                xrel: rel_x,
                yrel: rel_y,
            }),
            None => None,
        },
        InputEventPayload::MouseButtonsChange { change, state } => match e.context {
            Some(c) => Some(SdlEvent::MouseButton {
                pressed: state,
                timestamp: event_ticks(e),
                window_id,
                button: log2_floor(change as nat) as u8,
                x: c.mouse_x,
                y: c.mouse_y,
            }),
            None => None,
        },
        _ => None,
    }
}

/// The SDL events that a queue becomes, in order (none while SDL2 is not in use).
pub open spec fn sdl_events_for(q: Seq<InputEvent>, sdl2_enabled: bool, window_id: u32) -> Seq<SdlEvent>
    decreases q.len(),
{
    if q.len() == 0 || !sdl2_enabled {
        seq![]
    } else {
        sdl_events_for(q.drop_last(), sdl2_enabled, window_id) + match sdl_event_for(q.last(), window_id) {
            Some(ev) => seq![ev],
            None => seq![],
        }
    }
}

/// Whether every queued button change that becomes an SDL button event (SDL2
/// in use, and the event has a context) names a button.
pub open spec fn flushable(q: Seq<InputEvent>, sdl2_enabled: bool) -> bool {
    sdl2_enabled ==> forall|i: int|
        0 <= i < q.len() && (#[trigger] q[i]).context is Some ==> (q[i].payload
            matches InputEventPayload::MouseButtonsChange { change, .. } ==> change != 0)
}

/// What processing an incoming event requires: the moves it asks for can be
/// made without overflow.
pub open spec fn process_ok(m: InputManager, event: InputEvent, fb_size: Option<(u32, u32)>) -> bool {
    match event.payload {
        InputEventPayload::MouseMoveRelative { x, y, .. } => relative_move_ok(m, x, y, fb_size),
        InputEventPayload::MouseMoveAbsolute(x, y, _, _) => absolute_move_ok(m, x, y, fb_size),
        _ => true,
    }
}

/// What processing an incoming event does: keys, moves and buttons update the
/// devices (a button change relative to the buttons held); anything else is
/// queued as it came, stamped.
pub open spec fn process_effect(
    old: InputManager,
    new: InputManager,
    event: InputEvent,
    fb_size: Option<(u32, u32)>,
    sdl2_ticks: Option<u32>,
) -> bool {
    match event.payload {
        InputEventPayload::KeyEvent { key, state, .. } => set_key_effect(old, new, key, state, sdl2_ticks),
        InputEventPayload::MouseMoveRelative { x, y, .. } => relative_move_effect(old, new, x, y, fb_size, sdl2_ticks),
        InputEventPayload::MouseMoveAbsolute(x, y, _, _) => absolute_move_effect(old, new, x, y, fb_size, sdl2_ticks),
        InputEventPayload::MouseButtonsSet { buttons } => set_buttons_effect(old, new, buttons, sdl2_ticks),
        InputEventPayload::MouseButtonsChange { change, state } => set_buttons_effect(
            old,
            new,
            apply_button_change(old.mouse.buttons, change, state),
            sdl2_ticks,
        ),
        _ => {
            &&& new.mouse == old.mouse
            &&& keeps_other_devices(old, new)
            &&& new.event_queue@ == old.event_queue@.push(
                InputEvent { metadata: stamp(event.metadata, sdl2_ticks), ..event },
            )
        },
    }
}

impl InputManager {
    /// A manager with fresh devices, no controllers and empty queues.
    pub fn new() -> (r: InputManager)
        ensures
            r.mouse.x == 0 && r.mouse.y == 0 && r.mouse.buttons == 0,
            r.keyboard.keycodes_state@ == Map::<u32, bool>::empty(),
            forall|i: int| 0 <= i < 513 ==> r.keyboard.sdl2_virt_array@[i] == 0,
            r.gamepads@.len() == 0,
            !r.gamepads_locked,
            r.event_queue@.len() == 0,
            r.event_queue_joystick_metaops@.len() == 0,
    {
        InputManager {
            mouse: Mouse::new(),
            keyboard: Keyboard::new(),
            gamepads: Vec::new(),
            event_queue: Vec::new(),
            gamepads_locked: false,
            event_queue_joystick_metaops: Vec::new(),
        }
    }

    /// The context of the manager's current state.
    pub fn current_context(&self) -> (r: InputContext)
        ensures
            r == context_of(*self),
    {
        InputContext {
            modifiers: self.keyboard.calc_modifiers(),
            buttons: self.mouse.buttons,
            mouse_x: self.mouse.x,
            mouse_y: self.mouse.y,
        }
    }

    /// Gives an event the manager's current context.
    pub fn add_context_to(&self, input_event: &mut InputEvent)
        ensures
            final(input_event).payload == old(input_event).payload,
            final(input_event).metadata == old(input_event).metadata,
            final(input_event).context == Some(context_of(*self)),
    {
        input_event.add_context(self.current_context());
    }

    /// A new event with the payload, stamped with the tick reading, without context.
    pub fn new_timestamped_input_event(payload: InputEventPayload, sdl2_ticks: Option<u32>) -> (r: InputEvent)
        ensures
            r == (InputEvent { payload, metadata: stamp(blank_metadata(), sdl2_ticks), context: None }),
    {
        let mut input_event = InputEvent::new(payload);
        input_event.metadata.timestamp(sdl2_ticks);
        input_event
    }

    /// A new event with the payload, stamped, in the manager's current context.
    fn synthesize(&self, payload: InputEventPayload, sdl2_ticks: Option<u32>) -> (r: InputEvent)
        ensures
            r == synthesized(payload, sdl2_ticks, context_of(*self)),
    {
        let mut e = Self::new_timestamped_input_event(payload, sdl2_ticks);
        self.add_context_to(&mut e);
        e
    }

    /// Moves the mouse to an absolute position within the framebuffer of size
    /// `fb_size` (nothing happens while that size is unknown).
    pub fn move_mouse_absolute(&mut self, x: i32, y: i32, fb_size: Option<(u32, u32)>, sdl2_ticks: Option<u32>)
        requires
            absolute_move_ok(*old(self), x, y, fb_size),
        ensures
            absolute_move_effect(*old(self), *final(self), x, y, fb_size, sdl2_ticks),
    {
        if let Some((width, height)) = fb_size {
            let final_x = clamp_i32(x, 0, width as i32);
            let final_y = clamp_i32(y, 0, height as i32);
            let relative_x = final_x - self.mouse.x;
            let relative_y = final_y - self.mouse.y;
            self.mouse.x = final_x;
            self.mouse.y = final_y;
            let e = self.synthesize(
                InputEventPayload::MouseMoveAbsolute(final_x, final_y, relative_x, relative_y),
                sdl2_ticks,
            );
            self.event_queue.push(e);
        }
    }

    /// Moves the mouse by `(x, y)`, within the framebuffer where its size is known.
    pub fn move_mouse_relative(&mut self, x: i32, y: i32, fb_size: Option<(u32, u32)>, sdl2_ticks: Option<u32>)
        requires
            relative_move_ok(*old(self), x, y, fb_size),
        ensures
            relative_move_effect(*old(self), *final(self), x, y, fb_size, sdl2_ticks),
    {
        let mut final_x = self.mouse.x + x;
        let mut final_y = self.mouse.y + y;
        if let Some((width, height)) = fb_size {
            final_x = clamp_i32(final_x, 0, width as i32);
            final_y = clamp_i32(final_y, 0, height as i32);
        }
        if self.mouse.x == final_x && self.mouse.y == final_y {
            return;
        }
        self.mouse.x = final_x;
        self.mouse.y = final_y;
        let e = self.synthesize(
            InputEventPayload::MouseMoveRelative { x: x, y: y, x_absolute: final_x, y_absolute: final_y },
            sdl2_ticks,
        );
        self.event_queue.push(e);
    }

    /// Records a key as held or released (see `set_key_effect`).
    pub fn set_key(&mut self, key: u32, state: bool, sdl2_ticks: Option<u32>)
        ensures
            set_key_effect(*old(self), *final(self), key, state, sdl2_ticks),
    {
        if let Some(prev) = self.keyboard.set_key(key, state) {
            if prev != state {
                let modifiers = self.keyboard.calc_modifiers();
                let e = self.synthesize(
                    InputEventPayload::KeyEvent { key, scancode: 0, state, modifiers },
                    sdl2_ticks,
                );
                self.event_queue.push(e);
            }
        }
    }

    /// The buttons after a change: pressing sets the bits of `change`,
    /// releasing clears them.
    fn calculate_change(&self, change: u8, state: bool) -> (r: u8)
        ensures
            r == apply_button_change(self.mouse.buttons, change, state),
    {
        if state {
            self.mouse.buttons | change
        } else {
            self.mouse.buttons & !change
        }
    }

    /// Sets the mouse buttons, queueing a release for each button let go and
    /// then a press for each button pressed.
    pub fn set_mouse_buttons(&mut self, buttons: u8, sdl2_ticks: Option<u32>)
        ensures
            set_buttons_effect(*old(self), *final(self), buttons, sdl2_ticks),
    {
        let ghost old_queue = self.event_queue@;
        let ghost ctx = context_of(*self);
        let old_buttons = self.mouse.buttons;
        let changed = old_buttons != buttons;
        if changed {
            let mut i: usize = 0;
            while i < 8
                invariant
                    i <= 8,
                    self.mouse.buttons == old_buttons,
                    self.mouse.x == old(self).mouse.x,
                    self.mouse.y == old(self).mouse.y,
                    keeps_other_devices(*old(self), *self),
                    context_of(*self) == ctx,
                    self.event_queue@ == old_queue + released_masks(old_buttons, buttons, i as int).map_values(
                        |m: u8| synthesized(InputEventPayload::MouseButtonsChange { change: m, state: false }, sdl2_ticks, ctx),
                    ),
                decreases 8 - i,
            {
                let mask = BUTTON_MASKS[i];
                if buttons & mask != self.mouse.buttons & mask && buttons & mask == 0 {
                    let e = self.synthesize(InputEventPayload::MouseButtonsChange { change: mask, state: false }, sdl2_ticks);
                    self.event_queue.push(e);
                }
                proof {
                    let f = |m: u8| synthesized(InputEventPayload::MouseButtonsChange { change: m, state: false }, sdl2_ticks, ctx);
                    let prev = released_masks(old_buttons, buttons, i as int);
                    let next = released_masks(old_buttons, buttons, i + 1);
                    assert(next == prev + (if old_buttons & mask != 0 && buttons & mask == 0 { seq![mask] } else { seq![] }));
                    if old_buttons & mask != 0 && buttons & mask == 0 {
                        assert(next.map_values(f) =~= prev.map_values(f).push(f(mask)));
                    } else {
                        assert(next.map_values(f) =~= prev.map_values(f));
                    }
                }
                i = i + 1;
            }
            let ghost mid_queue = self.event_queue@;
            let mut i: usize = 0;
            while i < 8
                invariant
                    i <= 8,
                    self.mouse.buttons == old_buttons,
                    self.mouse.x == old(self).mouse.x,
                    self.mouse.y == old(self).mouse.y,
                    keeps_other_devices(*old(self), *self),
                    context_of(*self) == ctx,
                    self.event_queue@ == mid_queue + pressed_masks(old_buttons, buttons, i as int).map_values(
                        |m: u8| synthesized(InputEventPayload::MouseButtonsChange { change: m, state: true }, sdl2_ticks, ctx),
                    ),
                decreases 8 - i,
            {
                let mask = BUTTON_MASKS[i];
                let hit = buttons & mask != self.mouse.buttons & mask && buttons & mask == mask;
                proof {
                    let b = buttons;
                    let o = old_buttons;
                    assert(mask == 1 || mask == 2 || mask == 4 || mask == 8 || mask == 16 || mask == 32 || mask == 64 || mask == 128);
                    assert(((b & mask != o & mask && b & mask == mask) == (o & mask == 0 && b & mask != 0))) by (bit_vector)
                        requires
                            mask == 1 || mask == 2 || mask == 4 || mask == 8 || mask == 16 || mask == 32 || mask == 64 || mask == 128;
                }
                if hit {
                    let e = self.synthesize(InputEventPayload::MouseButtonsChange { change: mask, state: true }, sdl2_ticks);
                    self.event_queue.push(e);
                }
                proof {
                    let f = |m: u8| synthesized(InputEventPayload::MouseButtonsChange { change: m, state: true }, sdl2_ticks, ctx);
                    let prev = pressed_masks(old_buttons, buttons, i as int);
                    let next = pressed_masks(old_buttons, buttons, i + 1);
                    assert(next == prev + (if old_buttons & mask == 0 && buttons & mask != 0 { seq![mask] } else { seq![] }));
                    if old_buttons & mask == 0 && buttons & mask != 0 {
                        assert(next.map_values(f) =~= prev.map_values(f).push(f(mask)));
                    } else {
                        assert(next.map_values(f) =~= prev.map_values(f));
                    }
                }
                i = i + 1;
            }
            assert(self.event_queue@ =~= old_queue + button_change_events(old_buttons, buttons, sdl2_ticks, ctx));
        }
        self.mouse.buttons = buttons;
    }

    /// Drops every queued relative mouse motion, keeping the other events in order.
    pub fn drain_mouse_motion(&mut self)
        ensures
            final(self).event_queue@ == without_relative_motion(old(self).event_queue@),
            final(self).mouse == old(self).mouse,
            keeps_other_devices(*old(self), *final(self)),
    {
        let ghost q0 = self.event_queue@;
        let ghost mut k: int = 0;
        let mut i: usize = 0;
        assert(q0.take(0) =~= seq![]);
        assert(q0.skip(0) =~= q0);
        while i < self.event_queue.len()
            invariant
                0 <= k <= q0.len(),
                i == without_relative_motion(q0.take(k)).len(),
                self.event_queue@ == without_relative_motion(q0.take(k)) + q0.skip(k),
                self.mouse == old(self).mouse,
                keeps_other_devices(*old(self), *self),
            decreases q0.len() - k,
        {
            proof {
                if k == q0.len() {
                    assert(q0.skip(k) =~= seq![]);
                }
                assert(q0.take(k + 1).drop_last() =~= q0.take(k));
                assert(q0.take(k + 1).last() == q0[k]);
                assert(self.event_queue@[i as int] == q0[k]);
            }
            let relative = match &self.event_queue[i].payload {
                InputEventPayload::MouseMoveRelative { .. } => true,
                _ => false,
            };
            if relative {
                self.event_queue.remove(i);
                proof {
                    assert(q0.skip(k).drop_first() =~= q0.skip(k + 1));
                    k = k + 1;
                }
                assert(self.event_queue@ =~= without_relative_motion(q0.take(k)) + q0.skip(k));
            } else {
                proof {
                    assert(q0.skip(k).drop_first() =~= q0.skip(k + 1));
                    k = k + 1;
                }
                assert(self.event_queue@ =~= without_relative_motion(q0.take(k)) + q0.skip(k));
                i = i + 1;
            }
        }
        proof {
            if k < q0.len() {
                assert(self.event_queue@.len() > i);
            }
            assert(q0.take(k) =~= q0);
            assert(q0.skip(k) =~= seq![]);
        }
        assert(self.event_queue@ =~= without_relative_motion(q0));
    }

    /// Adds a controller; returns its index.
    pub fn add_gamepad(&mut self, gamepad: Gamepad) -> (r: usize)
        ensures
            r == old(self).gamepads@.len(),
            final(self).gamepads@ == old(self).gamepads@.push(gamepad),
            final(self).mouse == old(self).mouse,
            final(self).keyboard == old(self).keyboard,
            final(self).event_queue@ == old(self).event_queue@,
    {
        let index = self.gamepads.len();
        self.gamepads.push(gamepad);
        index
    }

    /// The controller at `index`, if there is one.
    pub fn get_gamepad(&self, index: usize) -> (r: Option<&Gamepad>)
        ensures
            r == (if index < self.gamepads@.len() { Some(&self.gamepads@[index as int]) } else { None }),
    {
        if index < self.gamepads.len() {
            Some(&self.gamepads[index])
        } else {
            None
        }
    }

    /// The number of controllers.
    pub fn count_gamepads(&self) -> (r: usize)
        ensures
            r == self.gamepads@.len(),
    {
        self.gamepads.len()
    }

    /// Removes the controller at `index`; later ones move down.
    pub fn remove_gamepad(&mut self, index: usize)
        requires
            index < old(self).gamepads@.len(),
        ensures
            final(self).gamepads@ == old(self).gamepads@.remove(index as int),
            final(self).mouse == old(self).mouse,
            final(self).keyboard == old(self).keyboard,
            final(self).event_queue@ == old(self).event_queue@,
    {
        self.gamepads.remove(index);
    }

    /// Queues an event as it is.
    pub fn push_event(&mut self, event: InputEvent)
        ensures
            final(self).event_queue@ == old(self).event_queue@.push(event),
            final(self).mouse == old(self).mouse,
            keeps_other_devices(*old(self), *final(self)),
    {
        self.event_queue.push(event);
    }

    /// Handles an incoming event (see `process_effect`).
    pub fn process_event(&mut self, event: InputEvent, fb_size: Option<(u32, u32)>, sdl2_ticks: Option<u32>)
        requires
            process_ok(*old(self), event, fb_size),
        ensures
            process_effect(*old(self), *final(self), event, fb_size, sdl2_ticks),
    {
        let ghost e0 = event;
        let InputEvent { payload, metadata, context } = event;
        match payload {
            InputEventPayload::KeyEvent { key, scancode, state, modifiers } => {
                self.set_key(key, state, sdl2_ticks);
            },
            InputEventPayload::MouseMoveRelative { x, y, x_absolute, y_absolute } => {
                self.move_mouse_relative(x, y, fb_size, sdl2_ticks);
            },
            InputEventPayload::MouseMoveAbsolute(x, y, _, _) => {
                self.move_mouse_absolute(x, y, fb_size, sdl2_ticks);
            },
            InputEventPayload::MouseButtonsSet { buttons } => {
                self.set_mouse_buttons(buttons, sdl2_ticks);
            },
            InputEventPayload::MouseButtonsChange { change, state } => {
                let new_buttons = self.calculate_change(change, state);
                self.set_mouse_buttons(new_buttons, sdl2_ticks);
            },
            other => {
                let mut md = metadata;
                md.timestamp(sdl2_ticks);
                let e = InputEvent { payload: other, metadata: md, context };
                assert(e == InputEvent { metadata: stamp(e0.metadata, sdl2_ticks), ..e0 });
                self.event_queue.push(e);
            },
        }
    }

    /// Empties the queue and returns the SDL events it becomes while SDL2 is in
    /// use, for the window `window_id`.
    pub fn flush_queue(&mut self, sdl2_enabled: bool, window_id: u32) -> (r: Vec<SdlEvent>)
        requires
            flushable(old(self).event_queue@, sdl2_enabled),
        ensures
            r@ == sdl_events_for(old(self).event_queue@, sdl2_enabled, window_id),
            final(self).event_queue@.len() == 0,
            final(self).mouse == old(self).mouse,
            keeps_other_devices(*old(self), *final(self)),
    {
        let mut out: Vec<SdlEvent> = Vec::new();
        let q = &self.event_queue;
        let mut i: usize = 0;
        if sdl2_enabled {
            while i < q.len()
                invariant
                    i <= q@.len(),
                    q@ == old(self).event_queue@,
                    flushable(q@, true),
                    out@ == sdl_events_for(q@.take(i as int), true, window_id),
                decreases q@.len() - i,
            {
                let e = &q[i];
                assert(q@.take(i + 1).drop_last() =~= q@.take(i as int));
                assert(q@.take(i + 1).last() == q@[i as int]);
                let timestamp: u32 = match e.metadata.sdl2_timestamp_ticks {
                    Some(t) => t,
                    None => 0,
                };
                match &e.payload {
                    InputEventPayload::KeyEvent { key, scancode, state, modifiers } => {
                        out.push(SdlEvent::Key { pressed: *state, timestamp, window_id, keycode: *key, modifiers: *modifiers });
                    },
                    InputEventPayload::MouseMoveRelative { x, y, x_absolute, y_absolute } => {
                        if let Some(c) = e.context {
                            out.push(SdlEvent::MouseMotion {
                                timestamp,
                                window_id,
                                state: c.buttons as u32,
                                x: *x_absolute,
                                y: *y_absolute,
                                xrel: *x,
                                yrel: *y,
                            });
                        }
                    },
                    InputEventPayload::MouseMoveAbsolute(x, y, rel_x, rel_y) => {
                        if let Some(c) = e.context {
                            out.push(SdlEvent::MouseMotion {
                                timestamp,
                                window_id,
                                state: c.buttons as u32,
                                x: *x,
                                y: *y,
                                xrel: *rel_x,
                                yrel: *rel_y,
                            });
                        }
                    },
                    InputEventPayload::MouseButtonsChange { change, state } => {
                        if let Some(c) = e.context {
                            assert(q@[i as int].context is Some);
                            let button = ilog2_u8(*change);
                            out.push(SdlEvent::MouseButton {
                                pressed: *state,
                                timestamp,
                                window_id,
                                button,
                                x: c.mouse_x,
                                y: c.mouse_y,
                            });
                        }
                    },
                    _ => {},
                }
                i = i + 1;
            }
            assert(q@.take(q@.len() as int) =~= q@);
        }
        self.event_queue = Vec::new();
        out
    }
}

/// Something the input manager can build.
pub trait CreatableFromInputManager: Sized {
    fn from_input_manager(input_manager: &InputManager) -> Self;
}

impl CreatableFromInputManager for InputContext {
    /// The manager's current context.
    fn from_input_manager(input_manager: &InputManager) -> (r: InputContext)
        ensures
            r == context_of(*input_manager),
    {
        input_manager.current_context()
    }
}

/// Something the input manager can update.
pub trait CanModifyWithInputManager {
    fn modify_with_input_manager(&mut self, input_manager: &InputManager);
}

impl CanModifyWithInputManager for InputEvent {
    /// Gives the event the manager's current context.
    fn modify_with_input_manager(&mut self, input_manager: &InputManager)
        ensures
            final(self).payload == old(self).payload,
            final(self).metadata == old(self).metadata,
            final(self).context == Some(context_of(*input_manager)),
    {
        self.add_context(input_manager.current_context());
    }
}

/// Something that can be passed through the input manager, builder style.
pub trait WithInputManagerBuilder: Sized {
    fn with_input_manager(self, input_manager: &InputManager) -> Self;
}

impl WithInputManagerBuilder for InputEvent {
    /// The event with the manager's current context.
    fn with_input_manager(self, input_manager: &InputManager) -> (r: InputEvent)
        ensures
            r.payload == self.payload,
            r.metadata == self.metadata,
            r.context == Some(context_of(*input_manager)),
    {
        let mut e = self;
        e.add_context(input_manager.current_context());
        e
    }
}

/// The SDL mouse-button state for a browser button mask: the same bits.
pub fn sdl2_translate_mouse_state(state: u8) -> (r: u8)
    ensures
        r == state,
{
    state
}

/// The button count a virtual controller reports: at least 21.
pub fn get_btns_for_virtual_gamepad(buttons_count: u8) -> (r: u8)
    ensures
        r == (if buttons_count > 21 { buttons_count } else { 21u8 }),
{
    if buttons_count > 21 {
        buttons_count
    } else {
        21
    }
}

/// How many axes, buttons and hats a virtual controller is created with.
#[derive(Debug, Clone, Copy, PartialEq, Eq, Structural)]
pub struct GamepadInitializationSpecs {
    pub axes: i32,
    pub buttons: i32,
    pub hats: i32,
}

/// A virtual controller's state in SDL's terms: axis values, buttons held and
/// hat positions.
#[derive(Debug, PartialEq)]
pub struct GamepadState {
    pub axes: Vec<i16>,
    pub buttons: Vec<bool>,
    pub hats: Vec<u8>,
}

/// `n` zeros.
fn zeros_i16(n: usize) -> (r: Vec<i16>)
    ensures
        r@.len() == n,
        forall|i: int| 0 <= i < n ==> r@[i] == 0,
{
    let mut v: Vec<i16> = Vec::new();
    while v.len() < n
        invariant
            v@.len() <= n,
            forall|i: int| 0 <= i < v@.len() ==> v@[i] == 0,
        decreases n - v@.len(),
    {
        v.push(0);
    }
    v
}

/// `n` released buttons.
fn released(n: usize) -> (r: Vec<bool>)
    ensures
        r@.len() == n,
        forall|i: int| 0 <= i < n ==> !r@[i],
{
    let mut v: Vec<bool> = Vec::new();
    while v.len() < n
        invariant
            v@.len() <= n,
            forall|i: int| 0 <= i < v@.len() ==> !v@[i],
        decreases n - v@.len(),
    {
        v.push(false);
    }
    v
}

/// `n` centred hats.
fn centred(n: usize) -> (r: Vec<u8>)
    ensures
        r@.len() == n,
        forall|i: int| 0 <= i < n ==> r@[i] == 0,
{
    let mut v: Vec<u8> = Vec::new();
    while v.len() < n
        invariant
            v@.len() <= n,
            forall|i: int| 0 <= i < v@.len() ==> v@[i] == 0,
        decreases n - v@.len(),
    {
        v.push(0);
    }
    v
}

impl GamepadState {
    /// A controller at rest with the given numbers of axes, buttons and hats:
    /// every axis at 0, no button held, every hat centred.
    pub fn from_gamepad_init_specs(specs: GamepadInitializationSpecs) -> (r: GamepadState)
        requires
            specs.axes >= 0 && specs.buttons >= 0 && specs.hats >= 0,
        ensures
            r.axes@.len() == specs.axes,
            r.buttons@.len() == specs.buttons,
            r.hats@.len() == specs.hats,
            forall|i: int| 0 <= i < r.axes@.len() ==> r.axes@[i] == 0,
            forall|i: int| 0 <= i < r.buttons@.len() ==> !r.buttons@[i],
            forall|i: int| 0 <= i < r.hats@.len() ==> r.hats@[i] == 0,
    {
        GamepadState {
            axes: zeros_i16(specs.axes as usize),
            buttons: released(specs.buttons as usize),
            hats: centred(specs.hats as usize),
        }
    }
}

/// The SDL form of a browser controller update: as many axes as the browser
/// sent (all at rest), at least 21 buttons (the count cut to a byte), of
/// which the first five take the browser's buttons where it sent them, and
/// no hat. Only controller updates have one, and their axis count must fit
/// an `i32`.
pub fn convert_update_to_sdl_form(event: &InputEvent) -> (r: GamepadState)
    requires
        event.payload matches InputEventPayload::JoystickBrowserUpdate { axis, .. } && axis@.len() <= i32::MAX,
    ensures
        event.payload matches InputEventPayload::JoystickBrowserUpdate { axis, buttons, .. } && {
            &&& r.axes@.len() == axis@.len()
            &&& forall|i: int| 0 <= i < r.axes@.len() ==> r.axes@[i] == 0
            &&& r.buttons@.len() == (if (buttons@.len() as u8) > 21 { (buttons@.len() as u8) as int } else { 21 })
            &&& forall|i: int| 0 <= i < r.buttons@.len() ==> r.buttons@[i] == (if i < 5 && i < buttons@.len() {
                buttons@[i]
            } else {
                false
            })
            &&& r.hats@.len() == 0
        },
{
    match &event.payload {
        InputEventPayload::JoystickBrowserUpdate { axis, buttons, .. } => {
            let count = get_btns_for_virtual_gamepad(buttons.len() as u8);
            let specs = GamepadInitializationSpecs { axes: axis.len() as i32, buttons: count as i32, hats: 0 };
            let mut state = GamepadState::from_gamepad_init_specs(specs);
            let mut i: usize = 0;
            while i < 5
                invariant
                    i <= 5,
                    state.buttons@.len() == count,
                    count >= 21,
                    state.axes@.len() == axis@.len(),
                    forall|k: int| 0 <= k < state.axes@.len() ==> state.axes@[k] == 0,
                    state.hats@.len() == 0,
                    forall|k: int| 0 <= k < state.buttons@.len() ==> state.buttons@[k] == (if k < i && k < buttons@.len() {
                        buttons@[k]
                    } else {
                        false
                    }),
                decreases 5 - i,
            {
                if i < buttons.len() {
                    state.buttons.set(i, buttons[i]);
                }
                i = i + 1;
            }
            state
        },
        _ => {
            proof {
                assert(false);
            }
            GamepadState { axes: Vec::new(), buttons: Vec::new(), hats: Vec::new() }
        },
    }
}

/// `SDL_WINDOWEVENT`.
pub const SDL_WINDOWEVENT: u32 = 512;
/// `SDL_WINDOWEVENT_SHOWN`.
pub const SDL_WINDOWEVENT_SHOWN: u8 = 1;
/// `SDL_WINDOWEVENT_MINIMIZED`.
pub const SDL_WINDOWEVENT_MINIMIZED: u8 = 7;
/// `SDL_WINDOWEVENT_FOCUS_LOST`.
pub const SDL_WINDOWEVENT_FOCUS_LOST: u8 = 13;

/// Whether an SDL event polled by the application is let through, given its
/// type and, for window events, the window event id: the application is
/// never told that its window was minimised, lost focus or was shown.
pub fn SDL_should_allow_event(event_type: u32, window_event_id: u8) -> (r: bool)
    ensures
        r == !(event_type == SDL_WINDOWEVENT && (window_event_id == SDL_WINDOWEVENT_MINIMIZED
            || window_event_id == SDL_WINDOWEVENT_FOCUS_LOST || window_event_id == SDL_WINDOWEVENT_SHOWN)),
{
    if event_type == SDL_WINDOWEVENT {
        if window_event_id == SDL_WINDOWEVENT_MINIMIZED {
            return false;
        } else if window_event_id == SDL_WINDOWEVENT_FOCUS_LOST {
            return false;
        } else if window_event_id == SDL_WINDOWEVENT_SHOWN {
            return false;
        }
    }
    true
}

} // verus!
