use hyperwarp::protocol::{GameControllerType, InputEventPayload, StellarDirectControlMessage};
use hyperwarp::streamer::{
    calc_offset, calc_offset_rgb, direct_message_to_input_event, direct_message_to_wayland_input,
    should_forward_data_channel_message, DataChannelTracker, OperationMode, WaylandInput,
};

#[test]
fn modes() {
    assert!(OperationMode::Hyperwarp.is_external_capture());
    assert!(!OperationMode::Ingest.is_external_capture());
    assert!(!OperationMode::WaylandDesktop.is_external_capture());
}

#[test]
fn offsets() {
    assert_eq!(calc_offset(10, 5, 3, 2), Some(92));
    assert_eq!(calc_offset(10, 5, 10, 5), Some(240));
    assert_eq!(calc_offset(10, 5, 11, 0), None);
    assert_eq!(calc_offset_rgb(10, 5, 3, 2), Some(69));
    assert_eq!(calc_offset_rgb(10, 5, 0, 6), None);
}

#[test]
fn forwarded_messages() {
    assert!(should_forward_data_channel_message(&StellarDirectControlMessage::RequestTitle));
    assert!(should_forward_data_channel_message(&StellarDirectControlMessage::MouseLock { state: true }));
    assert!(should_forward_data_channel_message(&StellarDirectControlMessage::RemoveGamepad { remote_id: "r".to_string() }));
    assert!(should_forward_data_channel_message(&StellarDirectControlMessage::AddGamepad {
        local_id: "l".to_string(),
        product_type: GameControllerType::Xbox360,
        axes: 4,
        buttons: 16,
        hats: 0
    }));
    assert!(!should_forward_data_channel_message(&StellarDirectControlMessage::UpdateWindowSize { width: 1, height: 1 }));
    assert!(!should_forward_data_channel_message(&StellarDirectControlMessage::RemoveGamepadReply {
        remote_id: "r".to_string(),
        success: true,
        message: String::new()
    }));
}

#[test]
fn direct_messages_become_input_events() {
    let key = StellarDirectControlMessage::KeyChange {
        key: "a".to_string(),
        code: "KeyA".to_string(),
        composition: false,
        state: true,
        timestamp: 0,
    };
    let e = direct_message_to_input_event(&key).unwrap();
    // the scancode is looked up from the key text, as the streamer does
    assert_eq!(e.payload, InputEventPayload::KeyEvent { key: 97, scancode: 0, state: true, modifiers: 0 });
    assert_eq!(e.context, None);
    let rel = direct_message_to_input_event(&StellarDirectControlMessage::MouseMoveRelative { x: 3, y: -2, timestamp: 1 }).unwrap();
    assert_eq!(rel.payload, InputEventPayload::MouseMoveRelative { x: 3, y: -2, x_absolute: -1, y_absolute: -1 });
    let abs = direct_message_to_input_event(&StellarDirectControlMessage::MouseMoveAbsolute { x: 3, y: 2, timestamp: 1 }).unwrap();
    assert_eq!(abs.payload, InputEventPayload::MouseMoveAbsolute(3, 2, 0, 0));
    let btn = direct_message_to_input_event(&StellarDirectControlMessage::MouseButton { change: 1, buttons: 5, state: true, timestamp: 1 }).unwrap();
    assert_eq!(btn.payload, InputEventPayload::MouseButtonsSet { buttons: 5 });
    assert!(direct_message_to_input_event(&StellarDirectControlMessage::RequestTitle).is_none());
}

#[test]
fn direct_messages_become_compositor_input() {
    let key = StellarDirectControlMessage::KeyChange {
        key: "a".to_string(),
        code: "KeyA".to_string(),
        composition: false,
        state: false,
        timestamp: 0,
    };
    assert_eq!(direct_message_to_wayland_input(&key), Some(WaylandInput::KeyboardKey { key: 30, pressed: false }));
    let button = |change: u8| StellarDirectControlMessage::MouseButton { change, buttons: 0, state: true, timestamp: 0 };
    let expected = [0x110, 0x112, 0x111, 0x116, 0x115];
    for (index, linux) in expected.iter().enumerate() {
        assert_eq!(
            direct_message_to_wayland_input(&button(index as u8)),
            Some(WaylandInput::MouseButton { button: *linux, pressed: true })
        );
    }
    assert_eq!(direct_message_to_wayland_input(&button(5)), None);
    assert_eq!(direct_message_to_wayland_input(&button(64)), None);
    let scroll = StellarDirectControlMessage::MouseScroll { delta_x: 1.5f32.to_bits(), delta_y: 0, timestamp: 9 };
    assert_eq!(direct_message_to_wayland_input(&scroll), Some(WaylandInput::MouseAxis { x: 1.5f32.to_bits(), y: 0, timestamp: 9 }));
    assert_eq!(
        direct_message_to_wayland_input(&StellarDirectControlMessage::MouseMoveRelative { x: 1, y: 2, timestamp: 0 }),
        Some(WaylandInput::MouseMoveRelative { pointer_x: 1, pointer_y: 2 })
    );
    assert_eq!(direct_message_to_wayland_input(&StellarDirectControlMessage::MouseLock { state: true }), None);
}

#[test]
fn tracker_add_then_remove_restores() {
    let mut t = DataChannelTracker::new();
    t.add_data_channel("s1", 1);
    t.add_data_channel("s1", 2);
    t.add_data_channel("s2", 3);
    assert_eq!(t.channel_id_to_socket_id.get(&2).unwrap(), "s1");
    assert_eq!(t.socket_id_to_channel_ids.len(), 2);
    assert_eq!(t.socket_id_to_channel_ids[0].1, vec![1, 2]);
    assert_eq!(t.socket_id_to_channel_ids[1].1, vec![3]);
    t.add_data_channel("s3", 4);
    t.remove_data_channel(4);
    assert_eq!(t.socket_id_to_channel_ids.len(), 2);
    assert!(t.channel_id_to_socket_id.get(&4).is_none());
    t.remove_data_channel(1);
    assert_eq!(t.socket_id_to_channel_ids[0].1, vec![2]);
    t.remove_data_channel(2);
    assert_eq!(t.socket_id_to_channel_ids.len(), 1);
    assert_eq!(t.socket_id_to_channel_ids[0].0, "s2");
    assert_eq!(t.channel_id_to_socket_id.len(), 1);
}
