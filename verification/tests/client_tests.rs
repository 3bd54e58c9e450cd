use hyperwarp::client::{
    data_channel_decision, route_peer_message, DataChannelDecision, HostMessageAction, HyperwarpClient, PeerRoute,
    StreamerSignal,
};
use hyperwarp::protocol::{
    DebugInfo, GraphicsAPI, Handshake, InputEvent, InputEventPayload, StellarChannel, StellarDirectControlMessage,
    StellarFrontendMessage, StellarMessage, Synchornization,
};

#[test]
fn greeting_on_a_ready_connection() {
    let mut c = HyperwarpClient::new(true);
    let m = c.on_connected(42, true);
    assert_eq!(
        m,
        vec![
            StellarMessage::Hello,
            StellarMessage::HandshakeRequest,
            StellarMessage::HelloName("Testing protocol".to_string()),
            StellarMessage::SubscribeChannel(StellarChannel::Frame),
            StellarMessage::SubscribeChannel(StellarChannel::Synchornizations),
        ]
    );
    assert_eq!(c.endpoint, Some(42));
    let mut d = HyperwarpClient::new(true);
    assert!(d.on_connected(1, false).is_empty());
    assert_eq!(d.endpoint, Some(1));
    d.on_disconnected();
    assert_eq!(d.endpoint, None);
}

#[test]
fn handshake_opens_the_shared_image() {
    let mut c = HyperwarpClient::new(true);
    assert_eq!(c.on_message(Some(StellarMessage::NewFrame)), HostMessageAction::FrameWithoutImage);
    let h = Handshake { resolution: (640, 480), shimg_path: "/dev/shm/x.raw".to_string(), graphics_api: GraphicsAPI::OpenGL };
    match c.on_message(Some(StellarMessage::HandshakeResponse(h))) {
        HostMessageAction::Handshake { frame_len, shimg_path, handshake } => {
            assert_eq!(frame_len, 1228800);
            assert_eq!(shimg_path, "/dev/shm/x.raw");
            assert_eq!(handshake.resolution, (640, 480));
        }
        other => panic!("unexpected {:?}", other),
    }
    assert!(c.image_open);
    assert_eq!(c.on_message(Some(StellarMessage::NewFrame)), HostMessageAction::ReadFrame);
}

#[test]
fn host_messages() {
    let mut c = HyperwarpClient::new(true);
    assert_eq!(c.on_message(None), HostMessageAction::Invalid);
    let s = Synchornization { resolution: Some((1, 2)), graphics_api: None };
    assert_eq!(c.on_message(Some(StellarMessage::SynchronizationEvent(s))), HostMessageAction::Synchronize(s));
    let info = || DebugInfo { message: "dbg".to_string() };
    assert_eq!(
        c.on_message(Some(StellarMessage::DebugInfoResponseV2(info(), "sock".to_string()))),
        HostMessageAction::Ignore
    );
    assert_eq!(c.on_signal(StreamerSignal::SocketCreated), None);
    assert!(c.socket_known);
    assert_eq!(
        c.on_message(Some(StellarMessage::DebugInfoResponseV2(info(), "sock".to_string()))),
        HostMessageAction::DebugResponse { source: "sock".to_string(), report: "dbg".to_string() }
    );
    assert_eq!(
        c.on_message(Some(StellarMessage::BroadcastDataChannelMessage("ch".to_string(), StellarDirectControlMessage::RequestTitle))),
        HostMessageAction::BroadcastDirect("ch".to_string(), StellarDirectControlMessage::RequestTitle)
    );
    assert_eq!(
        c.on_message(Some(StellarMessage::ReplyDataChannelMessage(
            "s".to_string(),
            "ch".to_string(),
            StellarDirectControlMessage::RequestTitle
        ))),
        HostMessageAction::SendDirect("s".to_string(), "ch".to_string(), StellarDirectControlMessage::RequestTitle)
    );
    assert_eq!(c.on_message(Some(StellarMessage::Hello)), HostMessageAction::Ignore);
}

#[test]
fn signals_need_a_connection() {
    let ev = || InputEvent::new(InputEventPayload::MouseButtonsSet { buttons: 1 });
    let mut c = HyperwarpClient::new(true);
    assert_eq!(c.on_signal(StreamerSignal::ProcessInput(ev())), None);
    assert_eq!(c.on_signal(StreamerSignal::DebugInfoRequest), None);
    c.on_connected(5, true);
    assert_eq!(c.on_signal(StreamerSignal::ProcessInput(ev())), Some(StellarMessage::UserInputEvent(ev())));
    assert_eq!(c.on_signal(StreamerSignal::DebugInfoRequest), Some(StellarMessage::DebugInfoRequestV2));
    assert_eq!(
        c.on_signal(StreamerSignal::ForwardedDataChannelMessage("s".to_string(), StellarDirectControlMessage::RequestTitle)),
        Some(StellarMessage::ForwardedDataChannelMessage("s".to_string(), StellarDirectControlMessage::RequestTitle))
    );
    assert_eq!(c.on_signal(StreamerSignal::DataChannelContent(vec![1, 2])), None);
    let mut w = HyperwarpClient::new(false);
    w.on_connected(5, true);
    assert_eq!(w.on_signal(StreamerSignal::ProcessInput(ev())), None);
}

#[test]
fn data_channel_messages() {
    let m = StellarDirectControlMessage::MouseButton { change: 1, buttons: 3, state: true, timestamp: 0 };
    assert_eq!(
        data_channel_decision("s".to_string(), m, true),
        DataChannelDecision::Input(InputEvent::new(InputEventPayload::MouseButtonsSet { buttons: 3 }))
    );
    assert_eq!(
        data_channel_decision("s".to_string(), StellarDirectControlMessage::MouseLock { state: true }, true),
        DataChannelDecision::Forward("s".to_string(), StellarDirectControlMessage::MouseLock { state: true })
    );
    assert_eq!(
        data_channel_decision("s".to_string(), StellarDirectControlMessage::MouseLock { state: true }, false),
        DataChannelDecision::NowhereToForward
    );
    assert_eq!(
        data_channel_decision("s".to_string(), StellarDirectControlMessage::UpdateWindowSize { width: 1, height: 1 }, true),
        DataChannelDecision::Unhandled
    );
}

#[test]
fn browser_messages_are_routed() {
    let ice = || StellarFrontendMessage::Ice { candidate: "c".to_string(), sdp_mline_index: 0 };
    assert_eq!(route_peer_message(1, Some("a".to_string()), Some(ice()), true), PeerRoute::TooShort);
    assert_eq!(route_peer_message(2, None, Some(ice()), true), PeerRoute::MissingSource);
    assert_eq!(route_peer_message(2, Some("a".to_string()), None, true), PeerRoute::Malformed);
    assert_eq!(route_peer_message(2, Some("a".to_string()), Some(ice()), true), PeerRoute::ToPipeline("a".to_string(), ice()));
    assert_eq!(
        route_peer_message(3, Some("a".to_string()), Some(StellarFrontendMessage::Ping { ping_payload: "p".to_string() }), true),
        PeerRoute::Ignored
    );
    assert_eq!(
        route_peer_message(2, Some("a".to_string()), Some(StellarFrontendMessage::HyperwarpDebugInfoRequest { hyperwarp_debug_info_request: 1 }), true),
        PeerRoute::HyperwarpDebugInfo
    );
    assert_eq!(
        route_peer_message(2, Some("a".to_string()), Some(StellarFrontendMessage::HyperwarpDebugInfoRequest { hyperwarp_debug_info_request: 1 }), false),
        PeerRoute::Ignored
    );
    assert_eq!(
        route_peer_message(2, Some("a".to_string()), Some(StellarFrontendMessage::Message { message: "m".to_string() }), true),
        PeerRoute::Unhandled
    );
}
