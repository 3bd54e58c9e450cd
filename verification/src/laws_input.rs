//! Laws of the input manager.
use vstd::prelude::*;
use crate::input::{
    absolute_move_effect, absolute_move_ok, relative_move_effect, relative_target, InputManager,
    apply_button_change, button_change_events, key_held, modifier_mask, pressed_masks, released_masks, synthesized,
    without_relative_motion, BUTTON_MASKS, log2_floor, event_ticks, sdl_event_for, sdl_events_for, SdlEvent,
};
use crate::keymap::{SDLK_LALT, SDLK_LCTRL, SDLK_LSHIFT, SDLK_RALT, SDLK_RCTRL, SDLK_RSHIFT};
use crate::protocol::{InputContext, InputEvent, InputEventPayload};

verus! {

/// The buttons after replaying the button changes among `events` in order,
/// from `b`; other events change nothing.
pub open spec fn replay_buttons(b: u8, events: Seq<InputEvent>) -> u8
    decreases events.len(),
{
    if events.len() == 0 {
        b
    } else {
        let prev = replay_buttons(b, events.drop_last());
        match events.last().payload {
            InputEventPayload::MouseButtonsChange { change, state } => apply_button_change(prev, change, state),
            _ => prev,
        }
    }
}

/// The bits below bit `n`.
pub open spec fn low_bits(n: int) -> u8 {
    if n <= 0 {
        0
    } else if n == 1 {
        1
    } else if n == 2 {
        3
    } else if n == 3 {
        7
    } else if n == 4 {
        15
    } else if n == 5 {
        31
    } else if n == 6 {
        63
    } else if n == 7 {
        127
    } else {
        255
    }
}

proof fn lemma_mask_step(n: int)
    requires
        0 <= n < 8,
    ensures
        low_bits(n + 1) == low_bits(n) | BUTTON_MASKS@[n],
        low_bits(n) & BUTTON_MASKS@[n] == 0,
        BUTTON_MASKS@[n] == 1 || BUTTON_MASKS@[n] == 2 || BUTTON_MASKS@[n] == 4 || BUTTON_MASKS@[n] == 8
            || BUTTON_MASKS@[n] == 16 || BUTTON_MASKS@[n] == 32 || BUTTON_MASKS@[n] == 64 || BUTTON_MASKS@[n] == 128,
{
    let m = BUTTON_MASKS@[n];
    let l = low_bits(n);
    if n == 0 {
        assert(m == 1);
        assert(1u8 == (0u8 | 1u8) && (0u8 & 1u8) == 0) by (bit_vector);
    } else if n == 1 {
        assert(m == 2);
        assert(3u8 == (1u8 | 2u8) && (1u8 & 2u8) == 0) by (bit_vector);
    } else if n == 2 {
        assert(m == 4);
        assert(7u8 == (3u8 | 4u8) && (3u8 & 4u8) == 0) by (bit_vector);
    } else if n == 3 {
        assert(m == 8);
        assert(15u8 == (7u8 | 8u8) && (7u8 & 8u8) == 0) by (bit_vector);
    } else if n == 4 {
        assert(m == 16);
        assert(31u8 == (15u8 | 16u8) && (15u8 & 16u8) == 0) by (bit_vector);
    } else if n == 5 {
        assert(m == 32);
        assert(63u8 == (31u8 | 32u8) && (31u8 & 32u8) == 0) by (bit_vector);
    } else if n == 6 {
        assert(m == 64);
        assert(127u8 == (63u8 | 64u8) && (63u8 & 64u8) == 0) by (bit_vector);
    } else {
        assert(m == 128);
        assert(255u8 == (127u8 | 128u8) && (127u8 & 128u8) == 0) by (bit_vector);
    }
}

/// Replaying a sequence and then another is replaying both.
pub proof fn lemma_replay_concat(b: u8, s1: Seq<InputEvent>, s2: Seq<InputEvent>)
    ensures
        replay_buttons(b, s1 + s2) == replay_buttons(replay_buttons(b, s1), s2),
    decreases s2.len(),
{
    if s2.len() > 0 {
        lemma_replay_concat(b, s1, s2.drop_last());
        assert((s1 + s2).drop_last() =~= s1 + s2.drop_last());
        assert((s1 + s2).last() == s2.last());
    } else {
        assert(s1 + s2 =~= s1);
    }
}

proof fn lemma_replay_released(old: u8, new: u8, ticks: Option<u32>, ctx: InputContext, n: int)
    requires
        0 <= n <= 8,
    ensures
        replay_buttons(old, released_masks(old, new, n).map_values(
            |m: u8| synthesized(InputEventPayload::MouseButtonsChange { change: m, state: false }, ticks, ctx),
        )) == old & !(old & !new & low_bits(n)),
    decreases n,
{
    let f = |m: u8| synthesized(InputEventPayload::MouseButtonsChange { change: m, state: false }, ticks, ctx);
    if n == 0 {
        assert(released_masks(old, new, 0).map_values(f) =~= Seq::<InputEvent>::empty());
        assert(old == old & !(old & !new & 0u8)) by (bit_vector);
    } else {
        lemma_replay_released(old, new, ticks, ctx, n - 1);
        lemma_mask_step(n - 1);
        let m = BUTTON_MASKS@[n - 1];
        let l = low_bits(n - 1);
        let prev = released_masks(old, new, n - 1).map_values(f);
        let b = old & !(old & !new & l);
        if old & m != 0 && new & m == 0 {
            assert(released_masks(old, new, n).map_values(f) =~= prev.push(f(m)));
            assert(prev.push(f(m)).drop_last() =~= prev);
            assert((b & !m) == old & !(old & !new & (l | m))) by (bit_vector)
                requires
                    b == old & !(old & !new & l),
                    old & m != 0,
                    new & m == 0,
                    l & m == 0,
                    m == 1 || m == 2 || m == 4 || m == 8 || m == 16 || m == 32 || m == 64 || m == 128;
        } else {
            assert(released_masks(old, new, n).map_values(f) =~= prev);
            assert(b == old & !(old & !new & (l | m))) by (bit_vector)
                requires
                    b == old & !(old & !new & l),
                    !(old & m != 0 && new & m == 0),
                    l & m == 0,
                    m == 1 || m == 2 || m == 4 || m == 8 || m == 16 || m == 32 || m == 64 || m == 128;
        }
    }
}

proof fn lemma_replay_pressed(start: u8, old: u8, new: u8, ticks: Option<u32>, ctx: InputContext, n: int)
    requires
        0 <= n <= 8,
    ensures
        replay_buttons(start, pressed_masks(old, new, n).map_values(
            |m: u8| synthesized(InputEventPayload::MouseButtonsChange { change: m, state: true }, ticks, ctx),
        )) == start | (new & !old & low_bits(n)),
    decreases n,
{
    let f = |m: u8| synthesized(InputEventPayload::MouseButtonsChange { change: m, state: true }, ticks, ctx);
    if n == 0 {
        assert(pressed_masks(old, new, 0).map_values(f) =~= Seq::<InputEvent>::empty());
        assert(start == start | (new & !old & 0u8)) by (bit_vector);
    } else {
        lemma_replay_pressed(start, old, new, ticks, ctx, n - 1);
        lemma_mask_step(n - 1);
        let m = BUTTON_MASKS@[n - 1];
        let l = low_bits(n - 1);
        let prev = pressed_masks(old, new, n - 1).map_values(f);
        let b = start | (new & !old & l);
        if old & m == 0 && new & m != 0 {
            assert(pressed_masks(old, new, n).map_values(f) =~= prev.push(f(m)));
            assert(prev.push(f(m)).drop_last() =~= prev);
            assert((b | m) == start | (new & !old & (l | m))) by (bit_vector)
                requires
                    b == start | (new & !old & l),
                    old & m == 0,
                    new & m != 0,
                    l & m == 0,
                    m == 1 || m == 2 || m == 4 || m == 8 || m == 16 || m == 32 || m == 64 || m == 128;
        } else {
            assert(pressed_masks(old, new, n).map_values(f) =~= prev);
            assert(b == start | (new & !old & (l | m))) by (bit_vector)
                requires
                    b == start | (new & !old & l),
                    !(old & m == 0 && new & m != 0),
                    l & m == 0,
                    m == 1 || m == 2 || m == 4 || m == 8 || m == 16 || m == 32 || m == 64 || m == 128;
        }
    }
}

/// Setting the mouse buttons queues exactly the changes that lead there:
/// replaying the queued button changes, in order, from the old buttons gives
/// the new ones.
pub proof fn law_button_changes_replay_to_new_state(old: u8, new: u8, ticks: Option<u32>, ctx: InputContext)
    ensures
        replay_buttons(old, button_change_events(old, new, ticks, ctx)) == new,
{
    let fr = |m: u8| synthesized(InputEventPayload::MouseButtonsChange { change: m, state: false }, ticks, ctx);
    let fp = |m: u8| synthesized(InputEventPayload::MouseButtonsChange { change: m, state: true }, ticks, ctx);
    let rel = released_masks(old, new, 8).map_values(fr);
    let pre = pressed_masks(old, new, 8).map_values(fp);
    lemma_replay_concat(old, rel, pre);
    lemma_replay_released(old, new, ticks, ctx, 8);
    let mid = old & !(old & !new & 255u8);
    lemma_replay_pressed(mid, old, new, ticks, ctx, 8);
    assert((mid | (new & !old & 255u8)) == new) by (bit_vector)
        requires
            mid == old & !(old & !new & 255u8);
}

/// After a key is recorded, the keyboard reports that state for it, and every
/// other key as before.
pub proof fn law_key_read_after_write(state: Map<u32, bool>, key: u32, pressed: bool, other: u32)
    ensures
        key_held(state.insert(key, pressed), key) == pressed,
        other != key ==> key_held(state.insert(key, pressed), other) == key_held(state, other),
{
}

/// Each modifier bit is set exactly when its key is held, and no other bit is.
pub proof fn law_modifier_bits(state: Map<u32, bool>)
    ensures
        (modifier_mask(state) & 0x0001 != 0) == key_held(state, SDLK_LSHIFT),
        (modifier_mask(state) & 0x0002 != 0) == key_held(state, SDLK_RSHIFT),
        (modifier_mask(state) & 0x0040 != 0) == key_held(state, SDLK_LCTRL),
        (modifier_mask(state) & 0x0080 != 0) == key_held(state, SDLK_RCTRL),
        (modifier_mask(state) & 0x0100 != 0) == key_held(state, SDLK_LALT),
        (modifier_mask(state) & 0x0200 != 0) == key_held(state, SDLK_RALT),
        modifier_mask(state) & !0x03C3u16 == 0,
{
    let t1: u16 = if key_held(state, SDLK_LSHIFT) { 1 } else { 0 };
    let t2: u16 = if key_held(state, SDLK_RSHIFT) { 2 } else { 0 };
    let t3: u16 = if key_held(state, SDLK_LCTRL) { 0x40 } else { 0 };
    let t4: u16 = if key_held(state, SDLK_RCTRL) { 0x80 } else { 0 };
    let t5: u16 = if key_held(state, SDLK_LALT) { 0x100 } else { 0 };
    let t6: u16 = if key_held(state, SDLK_RALT) { 0x200 } else { 0 };
    let m = modifier_mask(state);
    assert(m == t1 + t2 + t3 + t4 + t5 + t6);
    assert(
        (m & 1 != 0) == (t1 == 1) && (m & 2 != 0) == (t2 == 2) && (m & 0x40 != 0) == (t3 == 0x40)
            && (m & 0x80 != 0) == (t4 == 0x80) && (m & 0x100 != 0) == (t5 == 0x100) && (m & 0x200 != 0) == (t6
            == 0x200) && m & !0x03C3u16 == 0
    ) by (bit_vector)
        requires
            t1 == 0 || t1 == 1,
            t2 == 0 || t2 == 2,
            t3 == 0 || t3 == 0x40,
            t4 == 0 || t4 == 0x80,
            t5 == 0 || t5 == 0x100,
            t6 == 0 || t6 == 0x200,
            m == t1 + t2 + t3 + t4 + t5 + t6;
}

/// Draining relative motion leaves none, and draining again changes nothing.
pub proof fn law_drain_removes_all_relative_motion(q: Seq<InputEvent>)
    ensures
        forall|i: int| 0 <= i < without_relative_motion(q).len()
            ==> !(#[trigger] without_relative_motion(q)[i].payload is MouseMoveRelative),
        without_relative_motion(without_relative_motion(q)) == without_relative_motion(q),
    decreases q.len(),
{
    if q.len() > 0 {
        law_drain_removes_all_relative_motion(q.drop_last());
        let p = without_relative_motion(q.drop_last());
        let w = without_relative_motion(q);
        if q.last().payload is MouseMoveRelative {
            assert(w == p);
        } else {
            assert(w == p.push(q.last()));
            assert(w.drop_last() =~= p);
            assert(w.last() == q.last());
            assert forall|i: int| 0 <= i < w.len() implies !(#[trigger] w[i].payload is MouseMoveRelative) by {
                if i < p.len() {
                    assert(w[i] == p[i]);
                }
            }
        }
    } else {
        assert(without_relative_motion(q) =~= Seq::<InputEvent>::empty());
    }
}

/// With the framebuffer's size known, an absolute move leaves the mouse inside
/// the frame, and so does a relative move that moves it.
pub proof fn law_moves_stay_in_frame(
    old: InputManager,
    new: InputManager,
    x: i32,
    y: i32,
    w: u32,
    h: u32,
    ticks: Option<u32>,
)
    ensures
        absolute_move_effect(old, new, x, y, Some((w, h)), ticks) ==> 0 <= new.mouse.x <= w && 0 <= new.mouse.y <= h,
        relative_move_effect(old, new, x, y, Some((w, h)), ticks) && new.mouse != old.mouse ==> 0 <= new.mouse.x <= w
            && 0 <= new.mouse.y <= h,
{
    let t = relative_target(old, x, y, Some((w, h)));
    assert(0 <= t.0 <= w && 0 <= t.1 <= h);
}

/// A mouse move, flushed to SDL, ends with a motion event for the given
/// window that puts the pointer where the mouse now is, at the time of the
/// move; for an absolute move, the relative motion is how far the mouse went.
pub proof fn law_flushed_moves_land_on_the_mouse(
    old: InputManager,
    new: InputManager,
    x: i32,
    y: i32,
    w: u32,
    h: u32,
    ticks: Option<u32>,
    window_id: u32,
)
    requires
        w <= i32::MAX,
        h <= i32::MAX,
        absolute_move_effect(old, new, x, y, Some((w, h)), ticks) && absolute_move_ok(old, x, y, Some((w, h)))
            || (relative_move_effect(old, new, x, y, Some((w, h)), ticks) && new.mouse != old.mouse),
    ensures
        ({
            let out = sdl_events_for(new.event_queue@, true, window_id);
            &&& out.len() == sdl_events_for(old.event_queue@, true, window_id).len() + 1
            &&& out.last() matches SdlEvent::MouseMotion { timestamp, window_id: wid, x: ex, y: ey, xrel, yrel, .. }
                && ex == new.mouse.x && ey == new.mouse.y && wid == window_id && timestamp == (match ticks {
                Some(t) => t,
                None => 0u32,
            }) && (absolute_move_effect(old, new, x, y, Some((w, h)), ticks) && absolute_move_ok(
                old,
                x,
                y,
                Some((w, h)),
            ) ==> ex - xrel == old.mouse.x && ey - yrel == old.mouse.y)
        }),
{
    let q = new.event_queue@;
    assert(q.drop_last() =~= old.event_queue@);
    if absolute_move_effect(old, new, x, y, Some((w, h)), ticks) && absolute_move_ok(old, x, y, Some((w, h))) {
        law_moves_stay_in_frame(old, new, x, y, w, h, ticks);
    } else {
        let t = relative_target(old, x, y, Some((w, h)));
        assert(0 <= t.0 <= w && 0 <= t.1 <= h);
    }
    assert(q.len() > 0);
    assert(sdl_events_for(q, true, window_id) == sdl_events_for(q.drop_last(), true, window_id) + match sdl_event_for(
        q.last(),
        window_id,
    ) {
        Some(ev) => seq![ev],
        None => seq![],
    });
}

/// What a queued event becomes for SDL keeps what the event says: a key event
/// keeps its key, modifiers and whether it is a press; an absolute move with
/// a context puts the pointer at the move's position with its relative
/// motion; a relative move at its absolute position with the requested
/// motion; a button change keeps whether it is a press, names the button by
/// the position of the changed bit and happens where the context's pointer is. Every event is for the given window, at the event's time.
pub proof fn law_sdl_events_keep_what_events_say(e: InputEvent, window_id: u32)
    ensures
        match e.payload {
            InputEventPayload::KeyEvent { key, state, modifiers, .. } => (sdl_event_for(e, window_id) matches Some(
                SdlEvent::Key { pressed, timestamp, window_id: wid, keycode, modifiers: m },
            ) && pressed == state && keycode == key && m == modifiers && wid == window_id && timestamp
                == event_ticks(e)),
            InputEventPayload::MouseMoveAbsolute(px, py, rx, ry) => e.context is Some ==> (sdl_event_for(
                e,
                window_id,
            ) matches Some(SdlEvent::MouseMotion { timestamp, window_id: wid, x, y, xrel, yrel, .. }) && x == px
                && y == py && xrel == rx && yrel == ry && wid == window_id && timestamp == event_ticks(e)),
            InputEventPayload::MouseMoveRelative { x: mx, y: my, x_absolute, y_absolute } => e.context is Some
                ==> (sdl_event_for(e, window_id) matches Some(
                SdlEvent::MouseMotion { timestamp, window_id: wid, x, y, xrel, yrel, .. },
            ) && x == x_absolute && y == y_absolute && xrel == mx && yrel == my && wid == window_id && timestamp
                == event_ticks(e)),
            InputEventPayload::MouseButtonsChange { change, state } => e.context is Some ==> (sdl_event_for(
                e,
                window_id,
            ) matches Some(SdlEvent::MouseButton { pressed, timestamp, window_id: wid, button, x, y }) && pressed
                == state && x == e.context.unwrap().mouse_x && y == e.context.unwrap().mouse_y && wid == window_id
                && timestamp == event_ticks(e) && forall|k: int|
                0 <= k < 8 && change == #[trigger] BUTTON_MASKS@[k] ==> button == k),
            _ => true,
        },
{
    assert(log2_floor(1) == 0);
    assert(log2_floor(2) == 1);
    assert(log2_floor(4) == 2);
    assert(log2_floor(8) == 3);
    assert(log2_floor(16) == 4);
    assert(log2_floor(32) == 5);
    assert(log2_floor(64) == 6);
    assert(log2_floor(128) == 7);
}

} // verus!
