use hyperwarp::control::{
    get_handshake, get_sync, host_tick, ControlOutcome, InternalSignals, MainTickMessage, PubSub,
};
use hyperwarp::host::LastSentState;
use hyperwarp::protocol::{GraphicsAPI, StellarChannel, StellarMessage};

#[test]
fn requests_are_queued_for_the_main_tick() {
    let mut p = PubSub::new();
    assert_eq!(
        p.handle_message(7, &Some(StellarMessage::ResolutionRequest)),
        ControlOutcome::Queued(MainTickMessage::RequestResolutionBroadcast(7))
    );
    assert_eq!(
        p.handle_message(8, &Some(StellarMessage::ShImgPathRequest)),
        ControlOutcome::Queued(MainTickMessage::RequestShImgPath(8))
    );
    assert_eq!(
        p.handle_message(9, &Some(StellarMessage::HandshakeRequest)),
        ControlOutcome::Queued(MainTickMessage::RequestHandshake(9))
    );
    assert_eq!(p.handle_message(9, &Some(StellarMessage::Hello)), ControlOutcome::Ignored);
    assert_eq!(p.handle_message(9, &None), ControlOutcome::Ignored);
    assert!(p.subscribers_of(StellarChannel::Frame).is_empty());
}

#[test]
fn subscriptions_are_recorded_per_channel() {
    let mut p = PubSub::new();
    assert_eq!(
        p.handle_message(1, &Some(StellarMessage::SubscribeChannel(StellarChannel::Frame))),
        ControlOutcome::Subscribed(StellarChannel::Frame)
    );
    p.subscribe(StellarChannel::Frame, 2);
    p.subscribe(StellarChannel::Synchornizations, 3);
    assert_eq!(p.subscribers_of(StellarChannel::Frame), &vec![1, 2]);
    assert_eq!(p.subscribers_of(StellarChannel::Synchornizations), &vec![3]);
    assert!(p.subscribers_of(StellarChannel::Signaling).is_empty());
}

#[test]
fn new_frames_reach_ready_subscribers_only() {
    let mut p = PubSub::new();
    p.subscribe(StellarChannel::Frame, 1);
    p.subscribe(StellarChannel::Frame, 2);
    p.subscribe(StellarChannel::Frame, 3);
    let r = p.signal_recipients(&InternalSignals::NewFrameSignal, &vec![true, false, true]);
    assert_eq!(r, vec![1, 3]);
    assert_eq!(p.subscribers_of(StellarChannel::Frame), &vec![1, 3]);
}

#[test]
fn channel_messages_reach_every_subscriber() {
    let mut p = PubSub::new();
    p.subscribe(StellarChannel::Synchornizations, 4);
    p.subscribe(StellarChannel::Synchornizations, 5);
    let sig = InternalSignals::SendToChannelSignal(StellarChannel::Synchornizations, StellarMessage::NewFrame);
    assert_eq!(p.signal_recipients(&sig, &vec![]), vec![4, 5]);
    assert_eq!(p.signal_recipients(&InternalSignals::TestSignal, &vec![]), Vec::<u64>::new());
    assert_eq!(p.subscribers_of(StellarChannel::Synchornizations), &vec![4, 5]);
}

#[test]
fn retain_ready_keeps_order() {
    let mut p = PubSub::new();
    for e in [10, 11, 12, 13] {
        p.subscribe(StellarChannel::WindowChanges, e);
    }
    p.retain_ready(StellarChannel::WindowChanges, &vec![false, true, true, false]);
    assert_eq!(p.subscribers_of(StellarChannel::WindowChanges), &vec![11, 12]);
}

#[test]
fn tick_detects_resolution_changes() {
    let mut last = LastSentState::new();
    let (sync, replies) = host_tick(&mut last, Some((640, 480)), None, "/dev/shm/a.raw", GraphicsAPI::OpenGL);
    assert!(sync);
    assert!(replies.is_empty());
    assert_eq!(last.resolution, (640, 480));
    let (sync, _) = host_tick(&mut last, Some((640, 480)), None, "/dev/shm/a.raw", GraphicsAPI::OpenGL);
    assert!(!sync);
}

#[test]
fn tick_answers_requests() {
    let mut last = LastSentState::new();
    let (_, r) = host_tick(
        &mut last,
        Some((800, 600)),
        Some(MainTickMessage::RequestResolutionBroadcast(3)),
        "/dev/shm/s.raw",
        GraphicsAPI::Vulkan,
    );
    assert_eq!(r, vec![(3, StellarMessage::ResolutionBroadcastResponse(Some((800, 600))))]);
    let (_, r) = host_tick(
        &mut last,
        Some((800, 600)),
        Some(MainTickMessage::RequestShImgPath(4)),
        "/dev/shm/s.raw",
        GraphicsAPI::Vulkan,
    );
    assert_eq!(
        r,
        vec![
            (4, StellarMessage::ShImgPathResponseStruct("/dev/shm/s.raw".to_string())),
            (4, StellarMessage::ShImgPathResponse("/dev/shm/s.raw".to_string())),
        ]
    );
    let (_, r) = host_tick(
        &mut last,
        Some((800, 600)),
        Some(MainTickMessage::RequestHandshake(5)),
        "/dev/shm/s.raw",
        GraphicsAPI::Vulkan,
    );
    assert_eq!(r.len(), 1);
    match &r[0] {
        (5, StellarMessage::HandshakeResponse(h)) => {
            assert_eq!(h.resolution, (800, 600));
            assert_eq!(h.shimg_path, "/dev/shm/s.raw");
            assert_eq!(h.graphics_api, GraphicsAPI::Vulkan);
        }
        other => panic!("unexpected reply {:?}", other),
    }
}

#[test]
fn handshake_and_sync_of_the_host() {
    let h = get_handshake(None, "/dev/shm/x.raw", GraphicsAPI::Unknown);
    assert_eq!(h.resolution, (0, 0));
    assert_eq!(h.shimg_path, "/dev/shm/x.raw");
    let s = get_sync(Some((2, 3)));
    assert_eq!(s.resolution, Some((2, 3)));
    assert_eq!(s.graphics_api, None);
}

use hyperwarp::control::{ApplicationHost, BindProtocol};
use hyperwarp::host::{Library, Window};
use hyperwarp::settings::Config;

fn host_config() -> Config {
    let mut c = Config::default();
    c.session_id = "sess".to_string();
    c.unix_socket_path = None;
    c
}

#[test]
fn host_paths() {
    let mut h = ApplicationHost::new(host_config());
    assert_eq!(h.get_unix_socket_path(), "/tmp/hw-sess.sock");
    assert_eq!(h.control_socket_path(), "/tmp/hw-sess.sock");
    h.config.unix_socket_path = Some("/run/ctl.sock".to_string());
    assert_eq!(h.control_socket_path(), "/run/ctl.sock");
    assert_eq!(h.bind_plan(), None);
    h.config.bind_type = Some("tcp".to_string());
    h.config.bind_addr = Some("127.0.0.1:9000".to_string());
    assert_eq!(h.bind_plan(), Some((BindProtocol::Tcp, "127.0.0.1:9000".to_string())));
    h.config.bind_type = Some("udp".to_string());
    assert_eq!(h.bind_plan(), Some((BindProtocol::Udp, "127.0.0.1:9000".to_string())));
}

#[test]
fn host_handshake_uses_the_framebuffer() {
    let mut h = ApplicationHost::new(host_config());
    let hs = h.get_handshake(GraphicsAPI::OpenGL);
    assert_eq!(hs.resolution, (0, 0));
    assert_eq!(hs.shimg_path, "/dev/shm/sess.raw");
    h.onWindowCreate(Window::new(1, Library::SDL2), None, None, Some(64), Some(32), GraphicsAPI::OpenGL);
    assert_eq!(h.get_handshake(GraphicsAPI::OpenGL).resolution, (64, 32));
    assert_eq!(h.get_sync().resolution, Some((64, 32)));
}

#[test]
fn host_ticks_answer_queued_requests_in_order() {
    let mut h = ApplicationHost::new(host_config());
    h.start(false);
    assert!(h.server_running);
    assert!(h.notify_frame());
    let out = h.onWindowCreate(Window::new(1, Library::SDL2), None, None, Some(8), Some(4), GraphicsAPI::Vulkan);
    assert_eq!(out.sync.map(|s| s.resolution), Some(Some((8, 4))));
    assert!(out.replies.is_empty());
    h.request(MainTickMessage::RequestResolutionBroadcast(1));
    h.request(MainTickMessage::RequestShImgPath(2));
    let (first, announced, second) = h.onFrameSwapEnd(GraphicsAPI::Vulkan);
    assert!(announced);
    assert_eq!(first.sync, None);
    assert_eq!(first.replies, vec![(1, StellarMessage::ResolutionBroadcastResponse(Some((8, 4))))]);
    assert_eq!(second.replies.len(), 2);
    assert_eq!(second.replies[0], (2, StellarMessage::ShImgPathResponseStruct("/dev/shm/sess.raw".to_string())));
    assert!(h.command_queue.is_empty());
}

#[test]
fn host_without_server_stays_quiet() {
    let mut h = ApplicationHost::new(host_config());
    h.start(true);
    assert!(!h.server_running);
    assert!(!h.notify_frame());
    h.request(MainTickMessage::RequestHandshake(3));
    let out = h.onWindowCreate(Window::new(1, Library::SDL2), None, None, Some(8), Some(4), GraphicsAPI::Vulkan);
    assert_eq!(out.sync, None);
    assert!(out.replies.is_empty());
    assert!(h.command_queue.is_empty());
    assert_eq!(h.last_sent_state.resolution, (8, 4));
}

#[test]
fn host_sync_signal_needs_the_server() {
    let mut h = ApplicationHost::new(host_config());
    assert_eq!(h.sync(), None);
    h.start(false);
    h.onWindowCreate(Window::new(2, Library::SDL2), None, None, Some(3), Some(5), GraphicsAPI::Unknown);
    assert_eq!(
        h.sync(),
        Some(InternalSignals::SendToChannelSignal(
            StellarChannel::Synchornizations,
            StellarMessage::SynchronizationEvent(hyperwarp::protocol::Synchornization { resolution: Some((3, 5)), graphics_api: None })
        ))
    );
}
