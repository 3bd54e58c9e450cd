//! The streamer's decisions: its mode, which data channels belong to which
//! client, frame offsets, and what browser control messages turn into.
use std::collections::HashMap;
use vstd::prelude::*;
use crate::keymap::{
    decode_keyevent_code_int, decode_keyevent_code_to_evdev, decode_keyevent_key, EVDEV_OF_CODE,
    KEYCODE_OF_KEY, SCANCODE_OF_CODE, SDLK_UNKNOWN, SDL_SCANCODE_UNKNOWN, WEB_BTN_TO_LINUX_BUTTON,
};
use crate::protocol::{InputEvent, InputEventPayload, StellarDirectControlMessage, blank_metadata};
use crate::text::{lookup_name, str_eq};
use vstd::string::StringExecFns;

verus! {

broadcast use vstd::std_specs::hash::group_hash_axioms;

/// Where the streamer takes its frames from.
#[derive(Debug, Clone, Copy, PartialEq, Eq, Structural)]
pub enum OperationMode {
    Hyperwarp,
    Ingest,
    WaylandDesktop,
}

impl OperationMode {
    /// Whether frames come from an injected application.
    pub fn is_external_capture(&self) -> (r: bool)
        ensures
            r == (*self == OperationMode::Hyperwarp),
    {
        match self {
            OperationMode::Hyperwarp => true,
            _ => false,
        }
    }
}

/// Who started an offer.
#[derive(Debug, Clone, Copy, PartialEq, Eq, Structural)]
pub enum OfferGenerationOriginType {
    Client,
    Element,
}

/// The byte offset of pixel `(x, y)` in an RGBA frame `width` wide, for
/// coordinates within (or on the far edge of) the frame.
pub fn calc_offset(width: usize, height: usize, x: usize, y: usize) -> (r: Option<usize>)
    requires
        x <= width && y <= height ==> (y * width + x) * 4 <= usize::MAX,
    ensures
        r == (if x <= width && y <= height { Some(((y * width + x) * 4) as usize) } else { None }),
{
    if x <= width && y <= height {
        proof {
            assert(0 <= y * width) by (nonlinear_arith);
        }
        return Some((y * width + x) * 4);
    }
    None
}

/// The byte offset of pixel `(x, y)` in an RGB frame `width` wide, for
/// coordinates within (or on the far edge of) the frame.
pub fn calc_offset_rgb(width: usize, height: usize, x: usize, y: usize) -> (r: Option<usize>)
    requires
        x <= width && y <= height ==> (y * width + x) * 3 <= usize::MAX,
    ensures
        r == (if x <= width && y <= height { Some(((y * width + x) * 3) as usize) } else { None }),
{
    if x <= width && y <= height {
        proof {
            assert(0 <= y * width) by (nonlinear_arith);
        }
        return Some((y * width + x) * 3);
    }
    None
}

/// Whether a data-channel message is handed on to the host application:
/// controller management, mouse lock and title requests.
pub open spec fn forwarded(message: StellarDirectControlMessage) -> bool {
    ||| message is AddGamepad
    ||| message is AddGamepadReply
    ||| message is UpdateGamepad
    ||| message is RemoveGamepad
    ||| message is MouseLock
    ||| message is RequestTitle
}

/// Whether a data-channel message is handed on to the host application.
pub fn should_forward_data_channel_message(message: &StellarDirectControlMessage) -> (r: bool)
    ensures
        r == forwarded(*message),
{
    match message {
        StellarDirectControlMessage::AddGamepad { .. } => true,
        StellarDirectControlMessage::AddGamepadReply { .. } => true,
        StellarDirectControlMessage::UpdateGamepad { .. } => true,
        StellarDirectControlMessage::RemoveGamepad { .. } => true,
        StellarDirectControlMessage::MouseLock { .. } => true,
        StellarDirectControlMessage::RequestTitle => true,
        _ => false,
    }
}

/// The input event that a data-channel message becomes for an injected
/// application: keys (keycode from the key, scancode looked up from the key
/// too), relative and absolute motion, and the buttons held; anything else
/// becomes nothing.
pub open spec fn input_event_for(message: StellarDirectControlMessage) -> Option<InputEvent> {
    match message {
        StellarDirectControlMessage::KeyChange { key, state, .. } => Some(InputEvent {
            payload: InputEventPayload::KeyEvent {
                key: lookup_name(KEYCODE_OF_KEY@, key@, SDLK_UNKNOWN),
                scancode: lookup_name(SCANCODE_OF_CODE@, key@, SDL_SCANCODE_UNKNOWN) as i32 as u32,
                state,
                modifiers: 0,
            },
            metadata: blank_metadata(),
            context: None,
        }),
        StellarDirectControlMessage::MouseMoveRelative { x, y, .. } => Some(InputEvent {
            payload: InputEventPayload::MouseMoveRelative { x, y, x_absolute: -1i32, y_absolute: -1i32 },
            metadata: blank_metadata(),
            context: None,
        }),
        StellarDirectControlMessage::MouseMoveAbsolute { x, y, .. } => Some(InputEvent {
            payload: InputEventPayload::MouseMoveAbsolute(x, y, 0, 0),
            metadata: blank_metadata(),
            context: None,
        }),
        StellarDirectControlMessage::MouseButton { buttons, .. } => Some(InputEvent {
            payload: InputEventPayload::MouseButtonsSet { buttons },
            metadata: blank_metadata(),
            context: None,
        }),
        _ => None,
    }
}

/// The input event that a data-channel message becomes for an injected application.
pub fn direct_message_to_input_event(message: &StellarDirectControlMessage) -> (r: Option<InputEvent>)
    ensures
        r == input_event_for(*message),
{
    match message {
        StellarDirectControlMessage::KeyChange { key, code, composition, state, timestamp } => {
            let keycode = decode_keyevent_key(key.as_str());
            let scancode = decode_keyevent_code_int(key.as_str()) as u32;
            Some(InputEvent::new(InputEventPayload::KeyEvent { key: keycode, scancode, state: *state, modifiers: 0 }))
        },
        StellarDirectControlMessage::MouseMoveRelative { x, y, timestamp } => {
            Some(InputEvent::new(InputEventPayload::MouseMoveRelative { x: *x, y: *y, x_absolute: -1, y_absolute: -1 }))
        },
        StellarDirectControlMessage::MouseMoveAbsolute { x, y, timestamp } => {
            Some(InputEvent::new(InputEventPayload::MouseMoveAbsolute(*x, *y, 0, 0)))
        },
        StellarDirectControlMessage::MouseButton { change, buttons, state, timestamp } => {
            Some(InputEvent::new(InputEventPayload::MouseButtonsSet { buttons: *buttons }))
        },
        _ => None,
    }
}

/// An input event for a Wayland compositor, sent upstream in the pipeline.
/// Scroll deltas are the `f32` bit patterns the browser sent.
#[derive(Debug, Clone, Copy, PartialEq, Eq, Structural)]
pub enum WaylandInput {
    KeyboardKey { key: u32, pressed: bool },
    MouseMoveRelative { pointer_x: i32, pointer_y: i32 },
    MouseMoveAbsolute { pointer_x: i32, pointer_y: i32 },
    MouseButton { button: u32, pressed: bool },
    MouseAxis { x: u32, y: u32, timestamp: u64 },
}

/// The compositor input that a data-channel message becomes: keys by their
/// evdev number, motion, buttons by the Linux number of the browser's button
/// index (`MouseEvent.button`; none where the index is beyond the five known
/// buttons), and scrolling; anything else becomes nothing.
pub open spec fn wayland_input_for(message: StellarDirectControlMessage) -> Option<WaylandInput> {
    match message {
        StellarDirectControlMessage::KeyChange { code, state, .. } => Some(
            WaylandInput::KeyboardKey { key: lookup_name(EVDEV_OF_CODE@, code@, 0), pressed: state },
        ),
        StellarDirectControlMessage::MouseMoveRelative { x, y, .. } => Some(
            WaylandInput::MouseMoveRelative { pointer_x: x, pointer_y: y },
        ),
        StellarDirectControlMessage::MouseMoveAbsolute { x, y, .. } => Some(
            WaylandInput::MouseMoveAbsolute { pointer_x: x, pointer_y: y },
        ),
        StellarDirectControlMessage::MouseButton { change, state, .. } => if change < 5 {
            Some(WaylandInput::MouseButton { button: WEB_BTN_TO_LINUX_BUTTON@[change as int], pressed: state })
        } else {
            None
        },
        StellarDirectControlMessage::MouseScroll { delta_x, delta_y, timestamp } => Some(
            WaylandInput::MouseAxis { x: delta_x, y: delta_y, timestamp },
        ),
        _ => None,
    }
}

/// The compositor input that a data-channel message becomes.
pub fn direct_message_to_wayland_input(message: &StellarDirectControlMessage) -> (r: Option<WaylandInput>)
    ensures
        r == wayland_input_for(*message),
{
    match message {
        StellarDirectControlMessage::KeyChange { key, code, composition, state, timestamp } => {
            Some(WaylandInput::KeyboardKey { key: decode_keyevent_code_to_evdev(code.as_str()), pressed: *state })
        },
        StellarDirectControlMessage::MouseMoveRelative { x, y, timestamp } => {
            Some(WaylandInput::MouseMoveRelative { pointer_x: *x, pointer_y: *y })
        },
        StellarDirectControlMessage::MouseMoveAbsolute { x, y, timestamp } => {
            Some(WaylandInput::MouseMoveAbsolute { pointer_x: *x, pointer_y: *y })
        },
        StellarDirectControlMessage::MouseButton { change, buttons, state, timestamp } => {
            if *change < 5 {
                Some(WaylandInput::MouseButton { button: WEB_BTN_TO_LINUX_BUTTON[*change as usize], pressed: *state })
            } else {
                None
            }
        },
        StellarDirectControlMessage::MouseScroll { delta_x, delta_y, timestamp } => {
            Some(WaylandInput::MouseAxis { x: *delta_x, y: *delta_y, timestamp: *timestamp })
        },
        _ => None,
    }
}

/// A browser key message becomes, for the injected application, a key event
/// that is a press exactly when the browser reported the key down, with no
/// modifiers, and, for the compositor, a key that is pressed exactly then too.
pub proof fn law_key_messages_keep_press_state(message: StellarDirectControlMessage)
    requires
        message is KeyChange,
    ensures
        input_event_for(message) is Some,
        input_event_for(message).unwrap().payload is KeyEvent,
        input_event_for(message).unwrap().payload->KeyEvent_state == message->KeyChange_state,
        input_event_for(message).unwrap().payload->KeyEvent_modifiers == 0,
        wayland_input_for(message) is Some,
        wayland_input_for(message).unwrap() is KeyboardKey,
        wayland_input_for(message).unwrap()->KeyboardKey_pressed == message->KeyChange_state,
{
}

/// Browser pointer messages keep their numbers: a motion keeps its
/// coordinates (a relative one with no absolute position yet, an absolute one
/// with no relative motion), and a button message sets the buttons it reports;
/// the compositor gets the same coordinates.
pub proof fn law_pointer_messages_keep_coordinates(message: StellarDirectControlMessage)
    ensures
        message matches StellarDirectControlMessage::MouseMoveRelative { x, y, .. } ==> input_event_for(message)
            == Some(InputEvent {
            payload: InputEventPayload::MouseMoveRelative { x, y, x_absolute: -1i32, y_absolute: -1i32 },
            metadata: blank_metadata(),
            context: None,
        }) && wayland_input_for(message) == Some(WaylandInput::MouseMoveRelative { pointer_x: x, pointer_y: y }),
        message matches StellarDirectControlMessage::MouseMoveAbsolute { x, y, .. } ==> input_event_for(message)
            == Some(InputEvent {
            payload: InputEventPayload::MouseMoveAbsolute(x, y, 0, 0),
            metadata: blank_metadata(),
            context: None,
        }) && wayland_input_for(message) == Some(WaylandInput::MouseMoveAbsolute { pointer_x: x, pointer_y: y }),
        message matches StellarDirectControlMessage::MouseButton { buttons, .. } ==> input_event_for(message)
            == Some(InputEvent {
            payload: InputEventPayload::MouseButtonsSet { buttons },
            metadata: blank_metadata(),
            context: None,
        }),
{
}

/// Two browser messages about the same key, one pressing and one releasing it,
/// become the same key event but for whether it is a press: the first a
/// press, the second a release; so it is for the compositor too.
pub proof fn law_press_and_release_differ_only_in_state(
    down: StellarDirectControlMessage,
    up: StellarDirectControlMessage,
)
    requires
        down is KeyChange,
        up is KeyChange,
        down->KeyChange_key == up->KeyChange_key,
        down->KeyChange_code == up->KeyChange_code,
        down->KeyChange_state,
        !up->KeyChange_state,
    ensures
        ({
            let p = input_event_for(down).unwrap().payload;
            let r = input_event_for(up).unwrap().payload;
            &&& p is KeyEvent && r is KeyEvent
            &&& p->KeyEvent_key == r->KeyEvent_key
            &&& p->KeyEvent_scancode == r->KeyEvent_scancode
            &&& p->KeyEvent_modifiers == r->KeyEvent_modifiers
            &&& p->KeyEvent_state
            &&& !r->KeyEvent_state
        }),
        wayland_input_for(down).unwrap() is KeyboardKey,
        wayland_input_for(up).unwrap() is KeyboardKey,
        wayland_input_for(down).unwrap()->KeyboardKey_key == wayland_input_for(up).unwrap()->KeyboardKey_key,
        wayland_input_for(down).unwrap()->KeyboardKey_pressed,
        !wayland_input_for(up).unwrap()->KeyboardKey_pressed,
{
}


/// The position of the first list of `socket`, or -1 where it has none.
pub open spec fn socket_index(lists: Seq<(Seq<char>, Seq<i32>)>, socket: Seq<char>) -> int
    decreases lists.len(),
{
    if lists.len() == 0 {
        -1
    } else if lists[0].0 == socket {
        0
    } else {
        let r = socket_index(lists.drop_first(), socket);
        if r < 0 {
            -1
        } else {
            r + 1
        }
    }
}

/// Where `socket_index` finds a list, it is within range and is the socket's;
/// no earlier list is the socket's.
pub proof fn lemma_socket_index(lists: Seq<(Seq<char>, Seq<i32>)>, socket: Seq<char>)
    ensures
        -1 <= socket_index(lists, socket) < lists.len(),
        socket_index(lists, socket) >= 0 ==> lists[socket_index(lists, socket)].0 == socket,
        forall|j: int| 0 <= j < lists.len() && (socket_index(lists, socket) < 0 || j < socket_index(lists, socket))
            ==> #[trigger] lists[j].0 != socket,
    decreases lists.len(),
{
    if lists.len() > 0 {
        lemma_socket_index(lists.drop_first(), socket);
        assert forall|j: int| 0 < j < lists.len() implies #[trigger] lists[j] == lists.drop_first()[j - 1] by {}
    }
}

/// `s` without any `c`, in order.
pub open spec fn without_channel(s: Seq<i32>, c: i32) -> Seq<i32>
    decreases s.len(),
{
    if s.len() == 0 {
        seq![]
    } else {
        without_channel(s.drop_last(), c) + (if s.last() == c {
            seq![]
        } else {
            seq![s.last()]
        })
    }
}

/// The channel lists after `channel` is added for `socket`: appended to the
/// socket's list, or a new list for a socket without one.
pub open spec fn lists_after_add(lists: Seq<(Seq<char>, Seq<i32>)>, socket: Seq<char>, channel: i32) -> Seq<(Seq<char>, Seq<i32>)> {
    let i = socket_index(lists, socket);
    if i >= 0 {
        lists.update(i, (socket, lists[i].1.push(channel)))
    } else {
        lists.push((socket, seq![channel]))
    }
}

/// The channel lists after `channel` of `socket` goes: taken out of the
/// socket's list, and the list dropped once empty.
pub open spec fn lists_after_remove(lists: Seq<(Seq<char>, Seq<i32>)>, socket: Seq<char>, channel: i32) -> Seq<(Seq<char>, Seq<i32>)> {
    let i = socket_index(lists, socket);
    let rest = without_channel(lists[i].1, channel);
    if rest.len() == 0 {
        lists.remove(i)
    } else {
        lists.update(i, (socket, rest))
    }
}

/// Which data channels belong to which client (socket id), both ways.
pub struct DataChannelTracker {
    pub channel_id_to_socket_id: HashMap<i32, String>,
    /// Each client with the channels it holds, in the order they came.
    pub socket_id_to_channel_ids: Vec<(String, Vec<i32>)>,
}

impl DataChannelTracker {
    /// The clients' channel lists.
    pub open spec fn lists(&self) -> Seq<(Seq<char>, Seq<i32>)> {
        self.socket_id_to_channel_ids@.map_values(|e: (String, Vec<i32>)| (e.0@, e.1@))
    }

    /// The client of each channel.
    pub open spec fn owners(&self) -> Map<i32, Seq<char>> {
        self.channel_id_to_socket_id@.map_values(|s: String| s@)
    }

    /// The two directions agree: each client appears once with a non-empty
    /// list, each listed channel belongs to its client, and each channel's
    /// client lists it.
    pub open spec fn wf(&self) -> bool {
        tracker_consistent(self.owners(), self.lists())
    }

    /// A tracker with no channel.
    pub fn new() -> (r: Self)
        ensures
            r.owners() == Map::<i32, Seq<char>>::empty(),
            r.lists() == Seq::<(Seq<char>, Seq<i32>)>::empty(),
            r.wf(),
    {
        let r = DataChannelTracker { channel_id_to_socket_id: HashMap::new(), socket_id_to_channel_ids: Vec::new() };
        assert(r.owners() =~= Map::<i32, Seq<char>>::empty());
        assert(r.lists() =~= Seq::<(Seq<char>, Seq<i32>)>::empty());
        r
    }

    /// Records that `channel_id` belongs to `socket_id`.
    pub fn add_data_channel(&mut self, socket_id: &str, channel_id: i32)
        ensures
            final(self).owners() == old(self).owners().insert(channel_id, socket_id@),
            final(self).lists() == lists_after_add(old(self).lists(), socket_id@, channel_id),
    {
        let ghost v0 = self.lists();
        proof {
            lemma_socket_index(v0, socket_id@);
        }
        self.channel_id_to_socket_id.insert(channel_id, String::from_str(socket_id));
        assert(self.owners() =~= old(self).owners().insert(channel_id, socket_id@));
        let found = self.find_socket(socket_id);
        match found {
            Some(i) => {
                let (name, mut list) = self.socket_id_to_channel_ids.remove(i);
                list.push(channel_id);
                self.socket_id_to_channel_ids.insert(i, (name, list));
                assert(self.lists() =~= lists_after_add(v0, socket_id@, channel_id));
            },
            None => {
                let mut list: Vec<i32> = Vec::new();
                list.push(channel_id);
                self.socket_id_to_channel_ids.push((String::from_str(socket_id), list));
                assert(self.lists() =~= lists_after_add(v0, socket_id@, channel_id));
            },
        }
    }

    /// The position of the list of `socket_id`, if it has one.
    fn find_socket(&self, socket_id: &str) -> (r: Option<usize>)
        ensures
            match r {
                Some(i) => socket_index(self.lists(), socket_id@) == i && i < self.socket_id_to_channel_ids@.len(),
                None => socket_index(self.lists(), socket_id@) < 0,
            },
    {
        let mut i: usize = 0;
        let ghost v = self.lists();
        assert(v.skip(0) =~= v);
        while i < self.socket_id_to_channel_ids.len()
            invariant
                i <= v.len(),
                v == self.lists(),
                v.len() == self.socket_id_to_channel_ids@.len(),
                socket_index(v, socket_id@) == (if socket_index(v.skip(i as int), socket_id@) < 0 {
                    -1
                } else {
                    socket_index(v.skip(i as int), socket_id@) + i
                }),
            decreases v.len() - i,
        {
            assert(v.skip(i as int)[0] == v[i as int]);
            if str_eq(self.socket_id_to_channel_ids[i].0.as_str(), socket_id) {
                return Some(i);
            }
            assert(v.skip(i as int).drop_first() =~= v.skip(i + 1));
            i = i + 1;
        }
        assert(v.skip(i as int) =~= Seq::<(Seq<char>, Seq<i32>)>::empty());
        None
    }

    /// Forgets `channel_id`; its client loses it, and a client left without
    /// channels is forgotten. The channel must be known, with its client's list.
    pub fn remove_data_channel(&mut self, channel_id: i32)
        requires
            old(self).owners().contains_key(channel_id),
            socket_index(old(self).lists(), old(self).owners()[channel_id]) >= 0,
        ensures
            final(self).owners() == old(self).owners().remove(channel_id),
            final(self).lists() == lists_after_remove(old(self).lists(), old(self).owners()[channel_id], channel_id),
    {
        let ghost v0 = self.lists();
        let ghost owner = self.owners()[channel_id];
        proof {
            lemma_socket_index(v0, owner);
        }
        let socket_id = match self.channel_id_to_socket_id.remove(&channel_id) {
            Some(s) => s,
            None => {
                assert(false);
                String::new()
            },
        };
        assert(self.owners() =~= old(self).owners().remove(channel_id));
        assert(socket_id@ == owner);
        let i = match self.find_socket(socket_id.as_str()) {
            Some(i) => i,
            None => {
                assert(false);
                0
            },
        };
        let (name, list) = self.socket_id_to_channel_ids.remove(i);
        let mut kept: Vec<i32> = Vec::new();
        let mut k: usize = 0;
        while k < list.len()
            invariant
                k <= list@.len(),
                kept@ == without_channel(list@.take(k as int), channel_id),
            decreases list@.len() - k,
        {
            assert(list@.take(k + 1).drop_last() =~= list@.take(k as int));
            if list[k] != channel_id {
                kept.push(list[k]);
            }
            k = k + 1;
        }
        assert(list@.take(list@.len() as int) =~= list@);
        if kept.len() != 0 {
            self.socket_id_to_channel_ids.insert(i, (name, kept));
            assert(self.lists() =~= lists_after_remove(v0, owner, channel_id));
        } else {
            assert(self.lists() =~= lists_after_remove(v0, owner, channel_id));
        }
    }
}

/// The two directions of a tracker agree (see `DataChannelTracker::wf`).
pub open spec fn tracker_consistent(owners: Map<i32, Seq<char>>, lists: Seq<(Seq<char>, Seq<i32>)>) -> bool {
    &&& forall|i: int, j: int| 0 <= i < j < lists.len() ==> lists[i].0 != lists[j].0
    &&& forall|i: int| 0 <= i < lists.len() ==> lists[i].1.len() > 0
    &&& forall|i: int, k: int|
        0 <= i < lists.len() && 0 <= k < lists[i].1.len() ==> owners.contains_key(#[trigger] lists[i].1[k])
            && owners[lists[i].1[k]] == lists[i].0
    &&& forall|c: i32| #[trigger] owners.contains_key(c) ==> socket_index(lists, owners[c]) >= 0
        && lists[socket_index(lists, owners[c])].1.contains(c)
}

/// A list without `c` loses nothing when `c` is taken out.
pub proof fn lemma_without_absent(s: Seq<i32>, c: i32)
    requires
        !s.contains(c),
    ensures
        without_channel(s, c) == s,
    decreases s.len(),
{
    if s.len() > 0 {
        assert(!s.drop_last().contains(c)) by {
            if s.drop_last().contains(c) {
                let k = choose|k: int| 0 <= k < s.drop_last().len() && s.drop_last()[k] == c;
                assert(s[k] == c);
            }
        }
        lemma_without_absent(s.drop_last(), c);
        assert(s.last() != c) by {
            assert(s[s.len() - 1] == s.last());
        }
        assert(s.drop_last().push(s.last()) =~= s);
    }
}

/// A socket found nowhere in `lists` is found at the end once appended.
pub proof fn lemma_socket_index_push(lists: Seq<(Seq<char>, Seq<i32>)>, entry: (Seq<char>, Seq<i32>))
    requires
        socket_index(lists, entry.0) < 0,
    ensures
        socket_index(lists.push(entry), entry.0) == lists.len(),
    decreases lists.len(),
{
    if lists.len() > 0 {
        lemma_socket_index_push(lists.drop_first(), entry);
        assert(lists.push(entry).drop_first() =~= lists.drop_first().push(entry));
    }
}

/// Replacing the list at a socket's position, under the same socket, keeps the position.
pub proof fn lemma_socket_index_update(lists: Seq<(Seq<char>, Seq<i32>)>, socket: Seq<char>, l: Seq<i32>)
    requires
        socket_index(lists, socket) >= 0,
    ensures
        socket_index(lists.update(socket_index(lists, socket), (socket, l)), socket) == socket_index(lists, socket),
    decreases lists.len(),
{
    lemma_socket_index(lists, socket);
    let i = socket_index(lists, socket);
    if i > 0 {
        lemma_socket_index_update(lists.drop_first(), socket, l);
        assert(lists.update(i, (socket, l)).drop_first() =~= lists.drop_first().update(i - 1, (socket, l)));
    }
}

/// Adding a channel that the tracker does not hold, and then removing it,
/// gives back the tracker as it was; the removal's conditions hold.
pub proof fn law_add_then_remove_restores(
    owners: Map<i32, Seq<char>>,
    lists: Seq<(Seq<char>, Seq<i32>)>,
    socket: Seq<char>,
    channel: i32,
)
    requires
        tracker_consistent(owners, lists),
        !owners.contains_key(channel),
    ensures
        ({
            let owners2 = owners.insert(channel, socket);
            let lists2 = lists_after_add(lists, socket, channel);
            &&& owners2.contains_key(channel)
            &&& socket_index(lists2, owners2[channel]) >= 0
            &&& owners2.remove(channel) == owners
            &&& lists_after_remove(lists2, owners2[channel], channel) == lists
        }),
{
    let owners2 = owners.insert(channel, socket);
    let lists2 = lists_after_add(lists, socket, channel);
    assert(owners2.remove(channel) =~= owners);
    lemma_socket_index(lists, socket);
    let i = socket_index(lists, socket);
    if i >= 0 {
        let l = lists[i].1;
        assert(!l.contains(channel)) by {
            if l.contains(channel) {
                let k = choose|k: int| 0 <= k < l.len() && l[k] == channel;
                assert(owners.contains_key(lists[i].1[k]));
            }
        }
        lemma_socket_index_update(lists, socket, l.push(channel));
        assert(l.push(channel).drop_last() =~= l);
        assert(l.push(channel).last() == channel);
        lemma_without_absent(l, channel);
        assert(without_channel(l.push(channel), channel) == l);
        assert(lists2.update(i, (socket, l)) =~= lists);
    } else {
        lemma_socket_index_push(lists, (socket, seq![channel]));
        let one = seq![channel];
        assert(one.drop_last() =~= Seq::<i32>::empty());
        assert(one.last() == channel);
        assert(without_channel(Seq::<i32>::empty(), channel) =~= Seq::<i32>::empty());
        assert(without_channel(one, channel) =~= Seq::<i32>::empty());
        assert(lists2.remove(lists.len() as int) =~= lists);
    }
}

/// `socket_index` depends only on the sockets' names, position by position.
pub proof fn lemma_socket_index_names(a: Seq<(Seq<char>, Seq<i32>)>, b: Seq<(Seq<char>, Seq<i32>)>, socket: Seq<char>)
    requires
        a.len() == b.len(),
        forall|i: int| 0 <= i < a.len() ==> #[trigger] a[i].0 == b[i].0,
    ensures
        socket_index(a, socket) == socket_index(b, socket),
    decreases a.len(),
{
    if a.len() > 0 {
        assert forall|i: int| 0 <= i < a.drop_first().len() implies #[trigger] a.drop_first()[i].0 == b.drop_first()[i].0 by {
            assert(a[i + 1].0 == b[i + 1].0);
        }
        lemma_socket_index_names(a.drop_first(), b.drop_first(), socket);
        assert(a[0].0 == b[0].0);
    }
}

/// Appending a list does not move a socket found before it.
pub proof fn lemma_socket_index_push_other(lists: Seq<(Seq<char>, Seq<i32>)>, entry: (Seq<char>, Seq<i32>), socket: Seq<char>)
    requires
        socket_index(lists, socket) >= 0,
    ensures
        socket_index(lists.push(entry), socket) == socket_index(lists, socket),
    decreases lists.len(),
{
    if lists.len() > 0 && lists[0].0 != socket {
        lemma_socket_index_push_other(lists.drop_first(), entry, socket);
        assert(lists.push(entry).drop_first() =~= lists.drop_first().push(entry));
    }
}

/// Adding a channel that the tracker does not hold keeps the tracker's two
/// directions in agreement.
pub proof fn law_fresh_add_keeps_consistency(
    owners: Map<i32, Seq<char>>,
    lists: Seq<(Seq<char>, Seq<i32>)>,
    socket: Seq<char>,
    channel: i32,
)
    requires
        tracker_consistent(owners, lists),
        !owners.contains_key(channel),
    ensures
        tracker_consistent(owners.insert(channel, socket), lists_after_add(lists, socket, channel)),
{
    let o2 = owners.insert(channel, socket);
    let l2 = lists_after_add(lists, socket, channel);
    lemma_socket_index(lists, socket);
    let i = socket_index(lists, socket);
    // Every channel listed before belongs to an owner, so it is not the new one.
    assert forall|a: int, k: int| 0 <= a < lists.len() && 0 <= k < lists[a].1.len() implies #[trigger] lists[a].1[k] != channel by {
        assert(owners.contains_key(lists[a].1[k]));
    }
    if i >= 0 {
        let l = lists[i].1;
        assert(l2 == lists.update(i, (socket, l.push(channel))));
        assert forall|a: int| 0 <= a < l2.len() implies #[trigger] l2[a].0 == lists[a].0 by {}
        assert forall|s2: Seq<char>| socket_index(l2, s2) == socket_index(lists, s2) by {
            lemma_socket_index_names(l2, lists, s2);
        }
        assert forall|a: int, k: int| 0 <= a < l2.len() && 0 <= k < l2[a].1.len() implies o2.contains_key(#[trigger] l2[a].1[k])
            && o2[l2[a].1[k]] == l2[a].0 by {
            if a == i && k == l.len() {
                assert(l2[a].1[k] == channel);
            } else {
                assert(l2[a].1[k] == lists[a].1[k]);
                assert(lists[a].1[k] != channel);
            }
        }
        assert forall|c: i32| #[trigger] o2.contains_key(c) implies socket_index(l2, o2[c]) >= 0
            && l2[socket_index(l2, o2[c])].1.contains(c) by {
            if c == channel {
                assert(l2[i].1[l.len() as int] == channel);
            } else {
                assert(owners.contains_key(c));
                assert(o2[c] == owners[c]);
                lemma_socket_index(lists, owners[c]);
                let j = socket_index(lists, owners[c]);
                assert(lists[j].1.contains(c));
                assert(socket_index(l2, o2[c]) == j);
                let kk = choose|kk: int| 0 <= kk < lists[j].1.len() && lists[j].1[kk] == c;
                assert(l2[j].1[kk] == c);
            }
        }
    } else {
        assert(l2 == lists.push((socket, seq![channel])));
        assert forall|c: i32| #[trigger] o2.contains_key(c) implies socket_index(l2, o2[c]) >= 0
            && l2[socket_index(l2, o2[c])].1.contains(c) by {
            if c == channel {
                lemma_socket_index_push(lists, (socket, seq![channel]));
                assert(l2[lists.len() as int].1[0] == channel);
            } else {
                assert(owners.contains_key(c));
                assert(o2[c] == owners[c]);
                lemma_socket_index(lists, owners[c]);
                let j = socket_index(lists, owners[c]);
                assert(lists[j].1.contains(c));
                lemma_socket_index_push_other(lists, (socket, seq![channel]), owners[c]);
                let kk = choose|kk: int| 0 <= kk < lists[j].1.len() && lists[j].1[kk] == c;
                assert(l2[j].1[kk] == c);
            }
        }
        assert forall|a: int, k: int| 0 <= a < l2.len() && 0 <= k < l2[a].1.len() implies o2.contains_key(#[trigger] l2[a].1[k])
            && o2[l2[a].1[k]] == l2[a].0 by {
            if a < lists.len() {
                assert(l2[a] == lists[a]);
                assert(lists[a].1[k] != channel);
            }
        }
        assert forall|a: int, b: int| 0 <= a < b < l2.len() implies l2[a].0 != l2[b].0 by {
            if b == lists.len() {
                assert(lists[a].0 != socket);
            }
        }
    }
}

/// With distinct names, each list is found at its own position.
pub proof fn lemma_socket_index_distinct(lists: Seq<(Seq<char>, Seq<i32>)>, k: int)
    requires
        0 <= k < lists.len(),
        forall|a: int, b: int| 0 <= a < b < lists.len() ==> lists[a].0 != lists[b].0,
    ensures
        socket_index(lists, lists[k].0) == k,
{
    lemma_socket_index(lists, lists[k].0);
    let idx = socket_index(lists, lists[k].0);
    if idx < 0 {
        assert(lists[k].0 != lists[k].0);
    } else if idx < k {
        assert(lists[idx].0 != lists[k].0);
    } else if idx > k {
        assert(lists[k].0 != lists[k].0);
    }
}

/// A channel is in what is left of a list exactly when it was in the list and
/// is not the one taken out.
pub proof fn lemma_without_channel(s: Seq<i32>, c: i32, x: i32)
    ensures
        without_channel(s, c).contains(x) == (s.contains(x) && x != c),
    decreases s.len(),
{
    if s.len() > 0 {
        lemma_without_channel(s.drop_last(), c, x);
        let p = without_channel(s.drop_last(), c);
        assert(s =~= s.drop_last().push(s.last()));
        if s.contains(x) && x != c {
            let k = choose|k: int| 0 <= k < s.len() && s[k] == x;
            if k < s.len() - 1 {
                assert(s.drop_last()[k] == x);
            }
        }
        if s.last() == c {
            assert(without_channel(s, c) == p);
            if s.drop_last().contains(x) {
                let k = choose|k: int| 0 <= k < s.drop_last().len() && s.drop_last()[k] == x;
                assert(s[k] == x);
            }
        } else {
            assert(without_channel(s, c) == p.push(s.last()));
            if p.push(s.last()).contains(x) {
                let k = choose|k: int| 0 <= k < p.push(s.last()).len() && p.push(s.last())[k] == x;
                if k < p.len() {
                    assert(p[k] == x);
                }
            }
            if p.contains(x) {
                let k = choose|k: int| 0 <= k < p.len() && p[k] == x;
                assert(p.push(s.last())[k] == x);
            }
            if s.drop_last().contains(x) {
                let k = choose|k: int| 0 <= k < s.drop_last().len() && s.drop_last()[k] == x;
                assert(s[k] == x);
            }
            assert(p.push(s.last())[p.len() as int] == s.last());
        }
    } else {
        assert(without_channel(s, c) =~= Seq::<i32>::empty());
    }
}

/// Removing a channel that the tracker holds keeps the tracker's two
/// directions in agreement (and the removal's conditions hold).
pub proof fn law_remove_keeps_consistency(owners: Map<i32, Seq<char>>, lists: Seq<(Seq<char>, Seq<i32>)>, channel: i32)
    requires
        tracker_consistent(owners, lists),
        owners.contains_key(channel),
    ensures
        socket_index(lists, owners[channel]) >= 0,
        tracker_consistent(owners.remove(channel), lists_after_remove(lists, owners[channel], channel)),
{
    let s = owners[channel];
    let o2 = owners.remove(channel);
    lemma_socket_index(lists, s);
    let i = socket_index(lists, s);
    let rest = without_channel(lists[i].1, channel);
    let l2 = lists_after_remove(lists, s, channel);
    // A listed channel other than `channel` is found in `rest` exactly when it sits in list `i`.
    assert forall|x: i32| #[trigger] rest.contains(x) == (lists[i].1.contains(x) && x != channel) by {
        lemma_without_channel(lists[i].1, channel, x);
    }
    // `channel` sits only in list `i`.
    assert forall|a: int, k: int| 0 <= a < lists.len() && 0 <= k < lists[a].1.len() && a != i
        implies #[trigger] lists[a].1[k] != channel by {
        if lists[a].1[k] == channel {
            assert(owners[lists[a].1[k]] == lists[a].0);
            if a < i {
                assert(lists[a].0 != lists[i].0);
            } else {
                assert(lists[i].0 != lists[a].0);
            }
        }
    }
    if rest.len() == 0 {
        assert(l2 == lists.remove(i));
        assert forall|a: int| 0 <= a < l2.len() implies #[trigger] l2[a] == (if a < i { lists[a] } else { lists[a + 1] }) by {}
        assert forall|a: int, b: int| 0 <= a < b < l2.len() implies l2[a].0 != l2[b].0 by {
            let a1 = if a < i { a } else { a + 1 };
            let b1 = if b < i { b } else { b + 1 };
            assert(lists[a1].0 != lists[b1].0);
        }
        assert forall|a: int, k: int| 0 <= a < l2.len() && 0 <= k < l2[a].1.len() implies o2.contains_key(#[trigger] l2[a].1[k])
            && o2[l2[a].1[k]] == l2[a].0 by {
            let a1 = if a < i { a } else { a + 1 };
            assert(l2[a] == lists[a1]);
            assert(lists[a1].1[k] != channel);
        }
        assert forall|c: i32| #[trigger] o2.contains_key(c) implies socket_index(l2, o2[c]) >= 0
            && l2[socket_index(l2, o2[c])].1.contains(c) by {
            assert(owners.contains_key(c));
            lemma_socket_index(lists, owners[c]);
            let j = socket_index(lists, owners[c]);
            assert(lists[j].1.contains(c));
            if j == i {
                assert(rest.contains(c));
            }
            let j2 = if j < i { j } else { j - 1 };
            assert(l2[j2] == lists[j]);
            lemma_socket_index_distinct(l2, j2);
        }
    } else {
        assert(l2 == lists.update(i, (s, rest)));
        assert forall|a: int| 0 <= a < l2.len() implies #[trigger] l2[a].0 == lists[a].0 by {}
        assert forall|s2: Seq<char>| socket_index(l2, s2) == socket_index(lists, s2) by {
            lemma_socket_index_names(l2, lists, s2);
        }
        assert forall|a: int, k: int| 0 <= a < l2.len() && 0 <= k < l2[a].1.len() implies o2.contains_key(#[trigger] l2[a].1[k])
            && o2[l2[a].1[k]] == l2[a].0 by {
            if a == i {
                let x = l2[a].1[k];
                assert(rest.contains(x));
                assert(lists[i].1.contains(x));
                let kk = choose|kk: int| 0 <= kk < lists[i].1.len() && lists[i].1[kk] == x;
                assert(owners[lists[i].1[kk]] == lists[i].0);
            } else {
                assert(l2[a] == lists[a]);
                assert(lists[a].1[k] != channel);
            }
        }
        assert forall|c: i32| #[trigger] o2.contains_key(c) implies socket_index(l2, o2[c]) >= 0
            && l2[socket_index(l2, o2[c])].1.contains(c) by {
            assert(owners.contains_key(c));
            lemma_socket_index(lists, owners[c]);
            let j = socket_index(lists, owners[c]);
            assert(lists[j].1.contains(c));
            if j == i {
                assert(rest.contains(c));
            }
        }
    }
}

} // verus!
