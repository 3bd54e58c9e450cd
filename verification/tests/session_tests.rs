use hyperwarp::protocol::{GraphicsAPI, Handshake, PipelineOptimization, StreamerState, Synchornization};
use hyperwarp::session::{
    capture_source, frame_copy_len, initial_link, wayland_caps, CaptureSource, ControlAction, ControlEvent,
    LinkElement, StreamControl, VideoFormat,
};
use hyperwarp::streamer::OperationMode;

fn handshake(w: u32, h: u32, api: GraphicsAPI) -> Handshake {
    Handshake { resolution: (w, h), shimg_path: "/dev/shm/s.raw".to_string(), graphics_api: api }
}

#[test]
fn starts_handshaking() {
    let s = StreamControl::new(GraphicsAPI::Unknown, 60);
    assert_eq!(s.streamer_state, StreamerState::Handshaking);
    assert_eq!(s.video, VideoFormat { width: 500, height: 500, fps: 60 });
    assert!(!s.frame_due());
    assert!(!s.flip);
}

#[test]
fn handshake_from_injected_application() {
    let mut s = StreamControl::new(GraphicsAPI::Unknown, 30);
    let a = s.step(OperationMode::Hyperwarp, ControlEvent::HandshakeReceived(handshake(1280, 720, GraphicsAPI::OpenGL)));
    assert_eq!(
        a,
        vec![
            ControlAction::SetCaps(VideoFormat { width: 1280, height: 720, fps: 30 }),
            ControlAction::SetFlip(true),
            ControlAction::AnnounceState(2),
        ]
    );
    assert_eq!(s.streamer_state, StreamerState::Running);
    assert_eq!(s.graphics_api, GraphicsAPI::OpenGL);
    assert!(s.flip);
}

#[test]
fn handshake_without_injection_only_runs() {
    let mut s = StreamControl::new(GraphicsAPI::Vulkan, 30);
    let a = s.step(OperationMode::Ingest, ControlEvent::HandshakeReceived(handshake(1, 1, GraphicsAPI::OpenGL)));
    assert_eq!(a, vec![ControlAction::AnnounceState(2)]);
    assert_eq!(s.video, VideoFormat { width: 500, height: 500, fps: 30 });
    assert_eq!(s.graphics_api, GraphicsAPI::Vulkan);
}

#[test]
fn synchronisation_resizes_without_rate() {
    let mut s = StreamControl::new(GraphicsAPI::Unknown, 60);
    let a = s.step(
        OperationMode::Hyperwarp,
        ControlEvent::SynchornizationReceived(Synchornization { resolution: Some((320, 200)), graphics_api: Some(GraphicsAPI::Vulkan) }),
    );
    assert_eq!(
        a,
        vec![
            ControlAction::SetCaps(VideoFormat { width: 320, height: 200, fps: 0 }),
            ControlAction::SetFlip(false),
            ControlAction::PlayFrameSource,
        ]
    );
    assert_eq!(s.video, VideoFormat { width: 320, height: 200, fps: 0 });
    let a = s.step(OperationMode::WaylandDesktop, ControlEvent::SynchornizationReceived(Synchornization { resolution: None, graphics_api: None }));
    assert!(a.is_empty());
}

#[test]
fn frames_follow_the_source() {
    let mut s = StreamControl::new(GraphicsAPI::Unknown, 60);
    assert!(s.step(OperationMode::Hyperwarp, ControlEvent::SetShouldUpdate(true)).is_empty());
    assert!(s.frame_due());
    s.step(OperationMode::Hyperwarp, ControlEvent::SetShouldUpdate(false));
    assert!(!s.frame_due());
}

#[test]
fn wayland_display_before_authentication() {
    let mut s = StreamControl::new(GraphicsAPI::Unknown, 60);
    assert!(s.step(OperationMode::WaylandDesktop, ControlEvent::SocketConnected).is_empty());
    assert!(s.socket_connected);
    let a = s.step(OperationMode::WaylandDesktop, ControlEvent::WaylandDisplayFound("wayland-1".to_string()));
    assert!(a.is_empty());
    let a = s.step(OperationMode::WaylandDesktop, ControlEvent::SocketAuthenticated);
    assert_eq!(a, vec![ControlAction::WaylandInit("wayland-1".to_string()), ControlAction::AnnounceState(2)]);
    assert_eq!(s.streamer_state, StreamerState::Running);
}

#[test]
fn wayland_display_after_authentication() {
    let mut s = StreamControl::new(GraphicsAPI::Unknown, 60);
    let a = s.step(OperationMode::WaylandDesktop, ControlEvent::SocketAuthenticated);
    assert_eq!(a, vec![ControlAction::AnnounceState(2)]);
    let a = s.step(OperationMode::WaylandDesktop, ControlEvent::WaylandDisplayFound("wayland-2".to_string()));
    assert_eq!(a, vec![ControlAction::WaylandInit("wayland-2".to_string())]);
    assert_eq!(s.wayland_display, Some("wayland-2".to_string()));
}

#[test]
fn injected_application_waits_for_its_handshake() {
    let mut s = StreamControl::new(GraphicsAPI::Unknown, 60);
    let a = s.step(OperationMode::Hyperwarp, ControlEvent::SocketAuthenticated);
    assert_eq!(a, vec![ControlAction::AnnounceState(1)]);
    assert_eq!(s.streamer_state, StreamerState::Handshaking);
    let a = s.step(OperationMode::Hyperwarp, ControlEvent::WaylandDisplayFound("w".to_string()));
    assert!(a.is_empty());
    assert_eq!(s.wayland_display, None);
}

#[test]
fn frame_copy_lengths() {
    assert_eq!(frame_copy_len(4000, 40, 100, 10000), 4000);
    assert_eq!(frame_copy_len(4000, 40, 100, 1000), 1000);
    assert_eq!(frame_copy_len(3999, 40, 100, 10000), 0);
    assert_eq!(frame_copy_len(4000, 40, 100, 0), 0);
}

#[test]
fn capture_sources() {
    assert_eq!(capture_source(OperationMode::Hyperwarp, PipelineOptimization::NVIDIA), CaptureSource::XImage);
    assert_eq!(
        capture_source(OperationMode::WaylandDesktop, PipelineOptimization::NoOptimization),
        CaptureSource::WaylandDisplay { software_render: true }
    );
    assert_eq!(
        capture_source(OperationMode::WaylandDesktop, PipelineOptimization::DMABuf),
        CaptureSource::WaylandDisplay { software_render: false }
    );
    assert_eq!(capture_source(OperationMode::Ingest, PipelineOptimization::Intel), CaptureSource::TestPattern);
}

#[test]
fn wayland_caps_texts() {
    assert_eq!(
        wayland_caps(PipelineOptimization::DMABuf, 1920, 1080, 60),
        "video/x-raw(memory:DMABuf),width=1920,height=1080,framerate=60/1"
    );
    assert_eq!(
        wayland_caps(PipelineOptimization::NVIDIA, 1280, 720, 30),
        "video/x-raw(memory:CUDAMemory),width=1280,height=720,framerate=30/1"
    );
    assert_eq!(
        wayland_caps(PipelineOptimization::NoOptimization, 640, 0, 5),
        "video/x-raw,width=640,height=0,format=RGBx,framerate=5/1"
    );
}

#[test]
fn capture_links() {
    assert_eq!(
        initial_link(OperationMode::Hyperwarp, PipelineOptimization::NVIDIA, 1, 1, 1),
        vec![LinkElement::FrameSource, LinkElement::VideoConvert, LinkElement::VideoFlip, LinkElement::DebugTee]
    );
    assert_eq!(
        initial_link(OperationMode::Ingest, PipelineOptimization::NoOptimization, 1, 1, 1),
        vec![LinkElement::Capture, LinkElement::VideoConvert]
    );
    assert_eq!(initial_link(OperationMode::Ingest, PipelineOptimization::AMD, 1, 1, 1), vec![LinkElement::Capture]);
    assert_eq!(
        initial_link(OperationMode::WaylandDesktop, PipelineOptimization::DMABuf, 800, 600, 60),
        vec![
            LinkElement::Capture,
            LinkElement::CapsFilter("video/x-raw(memory:DMABuf),width=800,height=600,framerate=60/1".to_string()),
        ]
    );
}

#[test]
fn running_stays_running() {
    let mut s = StreamControl::new(GraphicsAPI::Unknown, 60);
    s.step(OperationMode::Hyperwarp, ControlEvent::HandshakeReceived(handshake(10, 10, GraphicsAPI::Vulkan)));
    assert_eq!(s.streamer_state, StreamerState::Running);
    let a = s.step(OperationMode::Hyperwarp, ControlEvent::SocketAuthenticated);
    assert_eq!(a, vec![ControlAction::AnnounceState(2)]);
    s.step(OperationMode::Hyperwarp, ControlEvent::SynchornizationReceived(Synchornization { resolution: None, graphics_api: None }));
    s.step(OperationMode::Hyperwarp, ControlEvent::SocketConnected);
    assert_eq!(s.streamer_state, StreamerState::Running);
}

#[test]
fn flip_follows_the_api() {
    let mut s = StreamControl::new(GraphicsAPI::Vulkan, 60);
    s.step(OperationMode::Hyperwarp, ControlEvent::SynchornizationReceived(Synchornization { resolution: None, graphics_api: Some(GraphicsAPI::OpenGL) }));
    assert!(s.flip);
    assert_eq!(s.graphics_api, GraphicsAPI::OpenGL);
    s.step(OperationMode::Ingest, ControlEvent::SynchornizationReceived(Synchornization { resolution: None, graphics_api: Some(GraphicsAPI::Metal) }));
    assert!(!s.flip);
}

#[test]
fn handshake_after_sync_uses_configured_rate() {
    let mut s = StreamControl::new(GraphicsAPI::Unknown, 60);
    s.step(
        OperationMode::Hyperwarp,
        ControlEvent::SynchornizationReceived(Synchornization { resolution: Some((100, 50)), graphics_api: None }),
    );
    assert_eq!(s.video.fps, 0);
    let a = s.step(OperationMode::Hyperwarp, ControlEvent::HandshakeReceived(handshake(640, 480, GraphicsAPI::Vulkan)));
    assert_eq!(a[0], ControlAction::SetCaps(VideoFormat { width: 640, height: 480, fps: 60 }));
    assert_eq!(s.video, VideoFormat { width: 640, height: 480, fps: 60 });
    assert_eq!(s.configured_fps, 60);
}
