use hyperwarp::protocol::{
    create_default_acl, get_all_channels, get_default_gamepad_type, get_default_hats, may_mutate_pipeline,
    session_state_to_u8, should_flip_buffers_for_graphics_api, streamer_state_to_u8, GameControllerType, GraphicsAPI,
    HostInfo, InputContext, InputEvent, InputEventPayload, InputMetadata, PrivligeDefinition, SessionState,
    StellarChannel, StellarFrontendMessage, StreamerState, UsbIdentification,
};

#[test]
fn channels_are_listed_in_order() {
    assert_eq!(
        get_all_channels(),
        vec![StellarChannel::Frame, StellarChannel::Synchornizations, StellarChannel::WindowChanges, StellarChannel::Signaling]
    );
}

#[test]
fn session_state_codes() {
    assert_eq!(session_state_to_u8(SessionState::Initalizing), 0);
    assert_eq!(session_state_to_u8(SessionState::Handshaking), 1);
    assert_eq!(session_state_to_u8(SessionState::Ready), 2);
    assert_eq!(session_state_to_u8(SessionState::Disconnecting), 9);
}

#[test]
fn streamer_state_codes() {
    assert_eq!(streamer_state_to_u8(StreamerState::Initalizing), 0);
    assert_eq!(streamer_state_to_u8(StreamerState::Handshaking), 1);
    assert_eq!(streamer_state_to_u8(StreamerState::Running), 2);
}

#[test]
fn default_acl_grants_everything() {
    let acl = create_default_acl();
    assert!(acl.can_chat && acl.can_resize && acl.can_mouse && acl.can_touchscreen);
    assert!(acl.can_keyboard && acl.can_controller && acl.can_manage_controllers && acl.can_admin);
    assert_eq!(PrivligeDefinition::default(), acl);
}

#[test]
fn defaults_for_gamepads() {
    assert_eq!(get_default_gamepad_type(), GameControllerType::Xbox360);
    assert_eq!(get_default_hats(), 0);
}

#[test]
fn pipeline_mutating_messages() {
    assert!(may_mutate_pipeline(&StellarFrontendMessage::Ice { candidate: "c".to_string(), sdp_mline_index: 0 }));
    assert!(may_mutate_pipeline(&StellarFrontendMessage::Sdp { type_: "offer".to_string(), sdp: "v=0".to_string() }));
    assert!(may_mutate_pipeline(&StellarFrontendMessage::ProvisionWebRTC { rtc_provision_start: 1 }));
    assert!(may_mutate_pipeline(&StellarFrontendMessage::DebugInfoRequest { debug_info_request: 1 }));
    assert!(may_mutate_pipeline(&StellarFrontendMessage::OfferRequest { offer_request_source: "x".to_string() }));
    assert!(!may_mutate_pipeline(&StellarFrontendMessage::Test { time: 3 }));
    assert!(!may_mutate_pipeline(&StellarFrontendMessage::Ping { ping_payload: "p".to_string() }));
    assert!(!may_mutate_pipeline(&StellarFrontendMessage::EndSessionRequest { end_session_request: 1 }));
}

#[test]
fn only_opengl_buffers_flip() {
    assert!(should_flip_buffers_for_graphics_api(GraphicsAPI::OpenGL));
    assert!(!should_flip_buffers_for_graphics_api(GraphicsAPI::Vulkan));
    assert!(!should_flip_buffers_for_graphics_api(GraphicsAPI::DirectX));
    assert!(!should_flip_buffers_for_graphics_api(GraphicsAPI::Metal));
    assert!(!should_flip_buffers_for_graphics_api(GraphicsAPI::Unknown));
}

#[test]
fn usb_identities() {
    let id = |v: u16, p: u16| UsbIdentification { vendor_id: v, product_id: p };
    assert_eq!(UsbIdentification::new_xbox360(), id(0x045e, 0x028e));
    assert_eq!(UsbIdentification::new_xboxone(), id(0x045e, 0x028f));
    assert_eq!(UsbIdentification::new_ps3(), id(0x054c, 0x0268));
    assert_eq!(UsbIdentification::new_ps4(), id(0x054c, 0x05c4));
    assert_eq!(UsbIdentification::new_ps5(), id(0x054c, 0x09cc));
    assert_eq!(UsbIdentification::new_switch_pro(), id(0x057e, 0x2009));
    assert_eq!(UsbIdentification::new_switch_joycon_left(), id(0x057e, 0x2006));
    assert_eq!(UsbIdentification::new_switch_joycon_right(), id(0x057e, 0x2007));
    assert_eq!(UsbIdentification::new_switch_joycon_pair(), id(0x057e, 0x2008));
    assert_eq!(UsbIdentification::new_unknown(), id(0, 0));
    assert_eq!(UsbIdentification::default(), id(0x045e, 0x028e));
}

#[test]
fn usb_identity_follows_product_type() {
    assert_eq!(UsbIdentification::from_product_type(GameControllerType::PS5), UsbIdentification::new_ps5());
    assert_eq!(UsbIdentification::from_product_type(GameControllerType::SwitchJoyConPair), UsbIdentification::new_switch_joycon_pair());
    // an unknown controller presents itself as an Xbox 360 pad
    assert_eq!(UsbIdentification::from_product_type(GameControllerType::Unknown), UsbIdentification::new_xbox360());
}

#[test]
fn new_input_event_is_blank() {
    let e = InputEvent::new(InputEventPayload::MouseButtonsSet { buttons: 5 });
    assert_eq!(e.payload, InputEventPayload::MouseButtonsSet { buttons: 5 });
    assert_eq!(e.metadata, InputMetadata::new());
    assert_eq!(e.metadata.sdl2_timestamp_ticks, None);
    assert_eq!(e.context, None);
}

#[test]
fn add_context_replaces_the_context() {
    let mut e = InputEvent::new(InputEventPayload::KeyEventLite { key: 97, state: true });
    let ctx = InputContext { modifiers: 3, buttons: 1, mouse_x: 10, mouse_y: 20 };
    e.add_context(InputContext::new());
    e.add_context(ctx);
    assert_eq!(e.context, Some(ctx));
    assert_eq!(InputContext::new(), InputContext { modifiers: 0, buttons: 0, mouse_x: 0, mouse_y: 0 });
}

#[test]
fn host_info_names_the_program() {
    let h = HostInfo::from_process(Some("game".to_string()), 42);
    assert_eq!(h.name, "game");
    assert_eq!(h.pid, 42);
    assert_eq!(h.graphics_api, GraphicsAPI::Unknown);
    assert_eq!(HostInfo::from_process(None, 7).name, "unknown");
}
