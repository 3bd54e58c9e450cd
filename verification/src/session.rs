//! The streaming loop's decisions: its control state (handshake, sockets,
//! frame format, flipping), the shape of its capture pipeline and how many
//! frame bytes each push copies.
use vstd::prelude::*;
use vstd::string::StringExecFns;
use crate::protocol::{
    GraphicsAPI, Handshake, PipelineOptimization, StreamerState, Synchornization,
    should_flip_buffers_for_graphics_api, streamer_state_code, streamer_state_to_u8,
};
use crate::streamer::OperationMode;
use crate::text::{decimal, push_decimal};
use crate::encoder::{contains_text, lemma_contains_at};

verus! {

/// The raw RGBA video format that frames are pushed in: width, height and
/// frames per second (0 where none was given).
#[derive(Debug, Clone, Copy, PartialEq, Eq, Structural)]
pub struct VideoFormat {
    pub width: u32,
    pub height: u32,
    pub fps: u32,
}

/// What the streaming loop remembers between events.
#[derive(Debug, PartialEq)]
pub struct StreamControl {
    /// Whether the frame source asked for frames.
    pub should_update: bool,
    pub socket_connected: bool,
    pub socket_authed: bool,
    /// The Wayland display that the compositor reported, once it has.
    pub wayland_display: Option<String>,
    pub graphics_api: GraphicsAPI,
    pub streamer_state: StreamerState,
    pub video: VideoFormat,
    /// The frame rate the streamer was configured with, which a handshake applies.
    pub configured_fps: u32,
    /// Whether frames are flipped vertically.
    pub flip: bool,
}

/// An event of the streaming loop.
#[derive(Debug, PartialEq)]
pub enum ControlEvent {
    HandshakeReceived(Handshake),
    SetShouldUpdate(bool),
    SynchornizationReceived(Synchornization),
    SocketConnected,
    SocketAuthenticated,
    /// The Wayland capture reported its display name.
    WaylandDisplayFound(String),
}

/// Something the streaming loop does in answer to an event.
#[derive(Debug, PartialEq)]
pub enum ControlAction {
    /// Offer frames in this format from now on.
    SetCaps(VideoFormat),
    /// Flip frames vertically, or not.
    SetFlip(bool),
    /// Tell the signalling server the streamer's state, by its number.
    AnnounceState(u8),
    /// Set the frame source playing.
    PlayFrameSource,
    /// Tell the signalling server which Wayland display to use.
    WaylandInit(String),
}

/// The state after `event` (see `StreamControl::step`).
pub open spec fn control_after(s: StreamControl, mode: OperationMode, event: ControlEvent) -> StreamControl {
    let external = mode == OperationMode::Hyperwarp;
    match event {
        ControlEvent::HandshakeReceived(h) => if external {
            StreamControl {
                video: VideoFormat { width: h.resolution.0, height: h.resolution.1, fps: s.configured_fps },
                graphics_api: h.graphics_api,
                flip: h.graphics_api == GraphicsAPI::OpenGL,
                streamer_state: StreamerState::Running,
                ..s
            }
        } else {
            StreamControl { streamer_state: StreamerState::Running, ..s }
        },
        ControlEvent::SetShouldUpdate(b) => StreamControl { should_update: b, ..s },
        ControlEvent::SynchornizationReceived(sync) => {
            let video = match sync.resolution {
                Some(res) => VideoFormat { width: res.0, height: res.1, fps: 0 },
                None => s.video,
            };
            match sync.graphics_api {
                Some(api) => StreamControl {
                    video,
                    graphics_api: api,
                    flip: api == GraphicsAPI::OpenGL,
                    ..s
                },
                None => StreamControl { video, ..s },
            }
        },
        ControlEvent::SocketConnected => StreamControl { socket_connected: true, ..s },
        ControlEvent::SocketAuthenticated => if external {
            StreamControl { socket_authed: true, ..s }
        } else {
            StreamControl { socket_authed: true, streamer_state: StreamerState::Running, ..s }
        },
        ControlEvent::WaylandDisplayFound(d) => if mode == OperationMode::WaylandDesktop {
            StreamControl { wayland_display: Some(d), ..s }
        } else {
            s
        },
    }
}

/// The actions for `event`, in order (see `StreamControl::step`).
pub open spec fn control_actions(s: StreamControl, mode: OperationMode, event: ControlEvent) -> Seq<ControlAction> {
    let external = mode == OperationMode::Hyperwarp;
    let running = ControlAction::AnnounceState(streamer_state_code(StreamerState::Running));
    match event {
        ControlEvent::HandshakeReceived(h) => if external {
            seq![
                ControlAction::SetCaps(VideoFormat { width: h.resolution.0, height: h.resolution.1, fps: s.configured_fps }),
                ControlAction::SetFlip(h.graphics_api == GraphicsAPI::OpenGL),
                running,
            ]
        } else {
            seq![running]
        },
        ControlEvent::SetShouldUpdate(_) => Seq::empty(),
        ControlEvent::SynchornizationReceived(sync) => {
            let caps = match sync.resolution {
                Some(res) => if external {
                    seq![ControlAction::SetCaps(VideoFormat { width: res.0, height: res.1, fps: 0 })]
                } else {
                    Seq::empty()
                },
                None => Seq::empty(),
            };
            let flip = match sync.graphics_api {
                Some(api) => seq![ControlAction::SetFlip(api == GraphicsAPI::OpenGL)],
                None => Seq::empty(),
            };
            let play = if external { seq![ControlAction::PlayFrameSource] } else { Seq::empty() };
            caps + flip + play
        },
        ControlEvent::SocketConnected => Seq::empty(),
        ControlEvent::SocketAuthenticated => {
            let state = control_after(s, mode, event).streamer_state;
            let init = if !external && s.wayland_display is Some {
                seq![ControlAction::WaylandInit(s.wayland_display.unwrap())]
            } else {
                Seq::empty()
            };
            init.push(ControlAction::AnnounceState(streamer_state_code(state)))
        },
        ControlEvent::WaylandDisplayFound(d) => if mode == OperationMode::WaylandDesktop
            && s.socket_authed {
            seq![ControlAction::WaylandInit(d)]
        } else {
            Seq::empty()
        },
    }
}

impl StreamControl {
    /// The state when streaming starts: nothing connected, frames not yet
    /// wanted, a 500×500 frame at the configured rate, handshaking, with the
    /// configured graphics API and no flipping.
    pub fn new(graphics_api: GraphicsAPI, fps: u32) -> (r: StreamControl)
        ensures
            !r.should_update && !r.socket_connected && !r.socket_authed,
            r.wayland_display is None,
            r.graphics_api == graphics_api,
            r.streamer_state == StreamerState::Handshaking,
            r.video == (VideoFormat { width: 500, height: 500, fps }),
            r.configured_fps == fps,
            !r.flip,
    {
        StreamControl {
            should_update: false,
            socket_connected: false,
            socket_authed: false,
            wayland_display: None,
            graphics_api,
            streamer_state: StreamerState::Handshaking,
            video: VideoFormat { width: 500, height: 500, fps },
            configured_fps: fps,
            flip: false,
        }
    }

    /// Takes one event of the streaming loop in a given mode and returns what
    /// to do, in order. A handshake sets the frame size (at the configured rate),
    /// the graphics API and the flipping when frames come from an injected
    /// application, and the streamer then runs and says so. A synchronisation
    /// sets the frame size (with no rate), then the graphics API and flipping,
    /// and restarts the frame source of an injected application. Once the
    /// signalling socket is authenticated, a streamer that captures by itself
    /// runs, hands over a Wayland display it already knows, and its state is
    /// announced. A Wayland display is remembered in Wayland mode, and handed
    /// over at once when the socket is authenticated.
    pub fn step(&mut self, mode: OperationMode, event: ControlEvent) -> (r: Vec<ControlAction>)
        ensures
            *final(self) == control_after(*old(self), mode, event),
            r@ == control_actions(*old(self), mode, event),
    {
        let external = mode.is_external_capture();
        let mut actions: Vec<ControlAction> = Vec::new();
        match event {
            ControlEvent::HandshakeReceived(h) => {
                if external {
                    let video = VideoFormat { width: h.resolution.0, height: h.resolution.1, fps: self.configured_fps };
                    self.video = video;
                    actions.push(ControlAction::SetCaps(video));
                    self.graphics_api = h.graphics_api;
                    let flip = should_flip_buffers_for_graphics_api(h.graphics_api);
                    self.flip = flip;
                    actions.push(ControlAction::SetFlip(flip));
                }
                self.streamer_state = StreamerState::Running;
                actions.push(ControlAction::AnnounceState(streamer_state_to_u8(StreamerState::Running)));
            },
            ControlEvent::SetShouldUpdate(b) => {
                self.should_update = b;
            },
            ControlEvent::SynchornizationReceived(sync) => {
                if let Some(res) = sync.resolution {
                    let video = VideoFormat { width: res.0, height: res.1, fps: 0 };
                    self.video = video;
                    if external {
                        actions.push(ControlAction::SetCaps(video));
                    }
                }
                if let Some(api) = sync.graphics_api {
                    self.graphics_api = api;
                    let flip = should_flip_buffers_for_graphics_api(api);
                    self.flip = flip;
                    actions.push(ControlAction::SetFlip(flip));
                }
                if external {
                    actions.push(ControlAction::PlayFrameSource);
                }
                proof {
                    let ghost caps = match sync.resolution {
                        Some(res) => if external {
                            seq![ControlAction::SetCaps(VideoFormat { width: res.0, height: res.1, fps: 0 })]
                        } else {
                            Seq::<ControlAction>::empty()
                        },
                        None => Seq::<ControlAction>::empty(),
                    };
                    let ghost flip = match sync.graphics_api {
                        Some(api) => seq![ControlAction::SetFlip(api == GraphicsAPI::OpenGL)],
                        None => Seq::<ControlAction>::empty(),
                    };
                    let ghost play = if external { seq![ControlAction::PlayFrameSource] } else { Seq::<ControlAction>::empty() };
                    assert(actions@ =~= caps + flip + play);
                }
            },
            ControlEvent::SocketConnected => {
                if !self.socket_connected {
                    self.socket_connected = true;
                }
            },
            ControlEvent::SocketAuthenticated => {
                self.socket_authed = true;
                if !external {
                    self.streamer_state = StreamerState::Running;
                    match &self.wayland_display {
                        Some(d) => actions.push(ControlAction::WaylandInit(d.clone())),
                        None => {},
                    }
                }
                actions.push(ControlAction::AnnounceState(streamer_state_to_u8(self.streamer_state)));
            },
            ControlEvent::WaylandDisplayFound(d) => {
                if mode == OperationMode::WaylandDesktop {
                    if self.socket_authed {
                        actions.push(ControlAction::WaylandInit(d.clone()));
                    }
                    self.wayland_display = Some(d);
                }
            },
        }
        actions
    }

    /// Whether a frame is pushed after this round of events: when the frame
    /// source asked for frames.
    pub fn frame_due(&self) -> (r: bool)
        ensures
            r == self.should_update,
    {
        self.should_update
    }
}

/// Once the streamer runs, no event takes it back to handshaking.
pub proof fn law_running_stays_running(s: StreamControl, mode: OperationMode, event: ControlEvent)
    requires
        s.streamer_state == StreamerState::Running,
    ensures
        control_after(s, mode, event).streamer_state == StreamerState::Running,
{
}

/// Flipping follows the graphics API: where frames are flipped exactly for
/// OpenGL, they still are after any event.
pub proof fn law_flip_follows_api(s: StreamControl, mode: OperationMode, event: ControlEvent)
    requires
        s.flip == (s.graphics_api == GraphicsAPI::OpenGL),
    ensures
        control_after(s, mode, event).flip == (control_after(s, mode, event).graphics_api == GraphicsAPI::OpenGL),
{
}

/// Every announced state is that of the streamer after the event.
pub proof fn law_announced_state_is_current(s: StreamControl, mode: OperationMode, event: ControlEvent, i: int)
    requires
        0 <= i < control_actions(s, mode, event).len(),
        control_actions(s, mode, event)[i] is AnnounceState,
    ensures
        control_actions(s, mode, event)[i] == ControlAction::AnnounceState(
            streamer_state_code(control_after(s, mode, event).streamer_state),
        ),
{
}

/// The configured frame rate never changes, so every handshake offers frames
/// at that rate, whatever synchronisations came before.
pub proof fn law_handshake_uses_configured_rate(s: StreamControl, mode: OperationMode, event: ControlEvent)
    ensures
        control_after(s, mode, event).configured_fps == s.configured_fps,
        mode == OperationMode::Hyperwarp ==> (event matches ControlEvent::HandshakeReceived(h)
            ==> control_actions(s, mode, event)[0] == ControlAction::SetCaps(
            VideoFormat { width: h.resolution.0, height: h.resolution.1, fps: s.configured_fps },
        )),
{
}

/// How many bytes of the latest frame are copied into a pushed buffer whose
/// plane holds `plane_len` bytes, for rows of `stride` bytes and `height`
/// rows (an image of at least one byte): none when the plane is shorter than
/// the image, else as much of the image as the frame holds.
pub fn frame_copy_len(plane_len: usize, stride: usize, height: usize, frame_len: usize) -> (r: usize)
    requires
        0 < stride * height <= usize::MAX,
    ensures
        r == (if plane_len < stride * height {
            0
        } else if frame_len < stride * height {
            frame_len as int
        } else {
            stride * height
        }),
{
    let image = stride * height;
    if plane_len < image {
        0
    } else if frame_len < image {
        frame_len
    } else {
        image
    }
}

/// The element that captures frames.
#[derive(Debug, Clone, Copy, PartialEq, Eq, Structural)]
pub enum CaptureSource {
    /// An X image source (`ximagesrc`); frames of an injected application
    /// arrive through the frame source instead.
    XImage,
    /// The Wayland compositor's display (`waylanddisplaysrc`), rendering in
    /// software where no optimisation was asked for.
    WaylandDisplay { software_render: bool },
    /// A test pattern (`videotestsrc`).
    TestPattern,
}

/// The capture element of a mode.
pub open spec fn capture_source_of(mode: OperationMode, optimizations: PipelineOptimization) -> CaptureSource {
    match mode {
        OperationMode::Hyperwarp => CaptureSource::XImage,
        OperationMode::WaylandDesktop => CaptureSource::WaylandDisplay {
            software_render: optimizations == PipelineOptimization::NoOptimization,
        },
        OperationMode::Ingest => CaptureSource::TestPattern,
    }
}

/// The capture element of a mode.
pub fn capture_source(mode: OperationMode, optimizations: PipelineOptimization) -> (r: CaptureSource)
    ensures
        r == capture_source_of(mode, optimizations),
{
    match mode {
        OperationMode::Hyperwarp => CaptureSource::XImage,
        OperationMode::WaylandDesktop => CaptureSource::WaylandDisplay {
            software_render: optimizations == PipelineOptimization::NoOptimization,
        },
        OperationMode::Ingest => CaptureSource::TestPattern,
    }
}

/// The caps that the Wayland capture is filtered to: DMA buffers, CUDA
/// memory or RGBx system memory, at the configured size and rate.
pub open spec fn wayland_caps_text(optimizations: PipelineOptimization, width: u32, height: u32, fps: u32) -> Seq<char> {
    let size = "width="@ + decimal(width as nat) + ",height="@ + decimal(height as nat);
    let rate = "framerate="@ + decimal(fps as nat) + "/1"@;
    if optimizations == PipelineOptimization::DMABuf {
        "video/x-raw(memory:DMABuf),"@ + size + ","@ + rate
    } else if optimizations == PipelineOptimization::NVIDIA {
        "video/x-raw(memory:CUDAMemory),"@ + size + ","@ + rate
    } else {
        "video/x-raw,"@ + size + ",format=RGBx,"@ + rate
    }
}

/// The Wayland capture's caps name the configured width, height and frame
/// rate, each under its own key.
pub proof fn law_caps_name_size_and_rate(optimizations: PipelineOptimization, width: u32, height: u32, fps: u32)
    ensures
        contains_text(wayland_caps_text(optimizations, width, height, fps), "width="@ + decimal(width as nat) + ","@),
        contains_text(wayland_caps_text(optimizations, width, height, fps), ",height="@ + decimal(height as nat) + ","@),
        contains_text(wayland_caps_text(optimizations, width, height, fps), "framerate="@ + decimal(fps as nat) + "/1"@),
{
    let c = wayland_caps_text(optimizations, width, height, fps);
    let dw = decimal(width as nat);
    let dh = decimal(height as nat);
    let df = decimal(fps as nat);
    let head = if optimizations == PipelineOptimization::DMABuf {
        "video/x-raw(memory:DMABuf),"@
    } else if optimizations == PipelineOptimization::NVIDIA {
        "video/x-raw(memory:CUDAMemory),"@
    } else {
        "video/x-raw,"@
    };
    let mid = if optimizations == PipelineOptimization::DMABuf || optimizations == PipelineOptimization::NVIDIA {
        ","@
    } else {
        ",format=RGBx,"@
    };
    let rate = "framerate="@ + df + "/1"@;
    assert(c =~= head + "width="@ + dw + ",height="@ + dh + mid + rate);
    reveal_strlit(",");
    reveal_strlit(",format=RGBx,");
    reveal_strlit(",height=");
    assert(mid[0] == ',');
    let tw = "width="@ + dw + ","@;
    let th = ",height="@ + dh + ","@;
    let i0 = head.len() as int;
    let i1 = i0 + "width="@.len() + dw.len();
    let i2 = i1 + ",height="@.len() + dh.len() + mid.len();
    assert(c.subrange(i0, i0 + tw.len()) =~= tw);
    assert(c.subrange(i1, i1 + th.len()) =~= th);
    assert(c.subrange(i2, i2 + rate.len()) =~= rate);
    lemma_contains_at(c, tw, i0);
    lemma_contains_at(c, th, i1);
    lemma_contains_at(c, rate, i2);
}

/// The caps that the Wayland capture is filtered to.
pub fn wayland_caps(optimizations: PipelineOptimization, width: u32, height: u32, fps: u32) -> (r: String)
    ensures
        r@ == wayland_caps_text(optimizations, width, height, fps),
{
    let mut c = if optimizations == PipelineOptimization::DMABuf {
        String::from_str("video/x-raw(memory:DMABuf),")
    } else if optimizations == PipelineOptimization::NVIDIA {
        String::from_str("video/x-raw(memory:CUDAMemory),")
    } else {
        String::from_str("video/x-raw,")
    };
    c.append("width=");
    push_decimal(&mut c, width);
    c.append(",height=");
    push_decimal(&mut c, height);
    if optimizations == PipelineOptimization::DMABuf || optimizations == PipelineOptimization::NVIDIA {
        c.append(",");
    } else {
        c.append(",format=RGBx,");
    }
    c.append("framerate=");
    push_decimal(&mut c, fps);
    c.append("/1");
    proof {
        let size = "width="@ + decimal(width as nat) + ",height="@ + decimal(height as nat);
        let rate = "framerate="@ + decimal(fps as nat) + "/1"@;
        if optimizations == PipelineOptimization::DMABuf {
            assert(c@ =~= "video/x-raw(memory:DMABuf),"@ + size + ","@ + rate);
        } else if optimizations == PipelineOptimization::NVIDIA {
            assert(c@ =~= "video/x-raw(memory:CUDAMemory),"@ + size + ","@ + rate);
        } else {
            assert(c@ =~= "video/x-raw,"@ + size + ",format=RGBx,"@ + rate);
        }
    }
    c
}

/// An element of the capture end of the pipeline, in link order.
#[derive(Debug, PartialEq)]
pub enum LinkElement {
    /// Where the frames of an injected application are pushed.
    FrameSource,
    Capture,
    /// A caps filter, with its caps as text.
    CapsFilter(String),
    VideoConvert,
    VideoFlip,
    /// The tee that the encoder hangs off in Hyperwarp mode.
    DebugTee,
}

/// Whether `link` is the capture end of the pipeline of a mode: the frame
/// source (for an injected application) or the capture element; in Wayland
/// mode a caps filter; a converter in Hyperwarp mode or where no
/// optimisation was asked for; then, in Hyperwarp mode, the flipper and the tee.
pub open spec fn initial_link_ok(
    mode: OperationMode,
    optimizations: PipelineOptimization,
    width: u32,
    height: u32,
    fps: u32,
    link: Seq<LinkElement>,
) -> bool {
    let first: Seq<LinkElement> = if mode == OperationMode::Hyperwarp {
        seq![LinkElement::FrameSource]
    } else {
        seq![LinkElement::Capture]
    };
    let convert: Seq<LinkElement> = if mode == OperationMode::Hyperwarp
        || optimizations == PipelineOptimization::NoOptimization {
        seq![LinkElement::VideoConvert]
    } else {
        Seq::empty()
    };
    let tail: Seq<LinkElement> = if mode == OperationMode::Hyperwarp {
        seq![LinkElement::VideoFlip, LinkElement::DebugTee]
    } else {
        Seq::empty()
    };
    if mode == OperationMode::WaylandDesktop {
        &&& link.len() == 2 + convert.len()
        &&& link[0] == LinkElement::Capture
        &&& link[1] matches LinkElement::CapsFilter(c) && c@ == wayland_caps_text(optimizations, width, height, fps)
        &&& link.skip(2) == convert
    } else {
        link == first + convert + tail
    }
}

/// The capture end of the pipeline, in link order (see `initial_link_ok`).
/// The encoder is attached after its last element.
pub fn initial_link(
    mode: OperationMode,
    optimizations: PipelineOptimization,
    width: u32,
    height: u32,
    fps: u32,
) -> (r: Vec<LinkElement>)
    ensures
        initial_link_ok(mode, optimizations, width, height, fps, r@),
{
    let mut link: Vec<LinkElement> = Vec::new();
    let hyperwarp = mode == OperationMode::Hyperwarp;
    if hyperwarp {
        link.push(LinkElement::FrameSource);
    } else {
        link.push(LinkElement::Capture);
    }
    if mode == OperationMode::WaylandDesktop {
        link.push(LinkElement::CapsFilter(wayland_caps(optimizations, width, height, fps)));
    }
    if hyperwarp || optimizations == PipelineOptimization::NoOptimization {
        link.push(LinkElement::VideoConvert);
    }
    if hyperwarp {
        link.push(LinkElement::VideoFlip);
        link.push(LinkElement::DebugTee);
    }
    proof {
        let convert: Seq<LinkElement> = if hyperwarp || optimizations == PipelineOptimization::NoOptimization {
            seq![LinkElement::VideoConvert]
        } else {
            Seq::empty()
        };
        if mode == OperationMode::WaylandDesktop {
            assert(link@.skip(2) =~= convert);
        } else if hyperwarp {
            assert(link@ =~= seq![LinkElement::FrameSource] + convert + seq![LinkElement::VideoFlip, LinkElement::DebugTee]);
        } else {
            assert(link@ =~= seq![LinkElement::Capture] + convert + Seq::<LinkElement>::empty());
        }
    }
    link
}

} // verus!
