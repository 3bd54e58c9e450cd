//! The streamer's links: its connection to the host process (what it sends on
//! connecting, what each host message and each internal signal leads to), the
//! routing of browser messages from the signalling server, and of data-channel
//! messages.
use vstd::prelude::*;
use vstd::string::StringExecFns;
use crate::protocol::{
    Handshake, InputEvent, StellarChannel, StellarDirectControlMessage, StellarFrontendMessage,
    StellarMessage, Synchornization, may_mutate_pipeline, mutates_pipeline,
};
use crate::control::{control_outcome, ControlOutcome, MainTickMessage};
use crate::streamer::{
    direct_message_to_input_event, forwarded, input_event_for, should_forward_data_channel_message,
};

verus! {

/// A signal to the thread that talks to the host process.
#[derive(Debug, PartialEq)]
pub enum StreamerSignal {
    DataChannelContent(Vec<u8>),
    ProcessInput(InputEvent),
    DebugInfoRequest,
    /// The signalling socket exists now.
    SocketCreated,
    ForwardedDataChannelMessage(String, StellarDirectControlMessage),
}

/// What a message from the host process leads to.
#[derive(Debug, PartialEq)]
pub enum HostMessageAction {
    /// Size the frame buffer to this many zero bytes, open the shared image
    /// at this path, and pass the handshake to the streaming loop.
    Handshake { frame_len: u32, shimg_path: String, handshake: Handshake },
    /// Read the new frame from the shared image.
    ReadFrame,
    /// A new frame, but the shared image is not open yet.
    FrameWithoutImage,
    /// Pass a synchronisation to the streaming loop.
    Synchronize(Synchornization),
    /// Send the host's debug report to the browser client that asked.
    DebugResponse { source: String, report: String },
    /// Have the streaming loop send a data-channel message to one client.
    SendDirect(String, String, StellarDirectControlMessage),
    /// Have the streaming loop send a data-channel message to every client.
    BroadcastDirect(String, StellarDirectControlMessage),
    /// The bytes did not decode.
    Invalid,
    Ignore,
}

/// The streamer's side of its connection to the host process.
#[derive(Debug, Clone, Copy, PartialEq, Eq, Structural)]
pub struct HyperwarpClient {
    /// The connection to the host, by resource id, while there is one.
    pub endpoint: Option<u64>,
    /// Whether the shared frame image is open.
    pub image_open: bool,
    /// Whether the signalling socket is known.
    pub socket_known: bool,
    /// Whether frames come from the injected application.
    pub externally_capturing: bool,
}

/// What the client says on connecting: hello, a handshake request, its
/// name, and subscriptions to frames and synchronisations.
pub open spec fn greeting_ok(messages: Seq<StellarMessage>) -> bool {
    &&& messages.len() == 5
    &&& messages[0] == StellarMessage::Hello
    &&& messages[1] == StellarMessage::HandshakeRequest
    &&& messages[2] matches StellarMessage::HelloName(n) && n@ == "Testing protocol"@
    &&& messages[3] == StellarMessage::SubscribeChannel(StellarChannel::Frame)
    &&& messages[4] == StellarMessage::SubscribeChannel(StellarChannel::Synchornizations)
}

/// The host, taking the client's greeting, hands a handshake request for the
/// client's connection to its main tick and subscribes the connection to frames
/// and synchronisations; the hello and the name ask nothing of it.
pub proof fn law_greeting_is_answered(messages: Seq<StellarMessage>, endpoint: u64)
    requires
        greeting_ok(messages),
    ensures
        control_outcome(endpoint, Some(messages[0])) == ControlOutcome::Ignored,
        control_outcome(endpoint, Some(messages[1])) == ControlOutcome::Queued(
            MainTickMessage::RequestHandshake(endpoint),
        ),
        control_outcome(endpoint, Some(messages[2])) == ControlOutcome::Ignored,
        control_outcome(endpoint, Some(messages[3])) == ControlOutcome::Subscribed(StellarChannel::Frame),
        control_outcome(endpoint, Some(messages[4])) == ControlOutcome::Subscribed(
            StellarChannel::Synchornizations,
        ),
{
}

/// The bytes of an RGBA frame of a resolution.
pub open spec fn frame_bytes(resolution: (u32, u32)) -> int {
    4 * resolution.0 * resolution.1
}

impl HyperwarpClient {
    /// Not connected, no image, no socket.
    pub fn new(externally_capturing: bool) -> (r: HyperwarpClient)
        ensures
            r.endpoint is None,
            !r.image_open,
            !r.socket_known,
            r.externally_capturing == externally_capturing,
    {
        HyperwarpClient { endpoint: None, image_open: false, socket_known: false, externally_capturing }
    }

    /// The connection to the host is up: it becomes the current one, and when
    /// it is ready the greeting is sent on it.
    pub fn on_connected(&mut self, endpoint: u64, ready: bool) -> (r: Vec<StellarMessage>)
        ensures
            *final(self) == (HyperwarpClient { endpoint: Some(endpoint), ..*old(self) }),
            ready ==> greeting_ok(r@),
            !ready ==> r@.len() == 0,
    {
        self.endpoint = Some(endpoint);
        let mut out: Vec<StellarMessage> = Vec::new();
        if ready {
            out.push(StellarMessage::Hello);
            out.push(StellarMessage::HandshakeRequest);
            out.push(StellarMessage::HelloName(String::from_str("Testing protocol")));
            out.push(StellarMessage::SubscribeChannel(StellarChannel::Frame));
            out.push(StellarMessage::SubscribeChannel(StellarChannel::Synchornizations));
        }
        out
    }

    /// The connection to the host is gone.
    pub fn on_disconnected(&mut self)
        ensures
            *final(self) == (HyperwarpClient { endpoint: None, ..*old(self) }),
    {
        self.endpoint = None;
    }

    /// Takes a message from the host (`None` where the bytes did not
    /// decode). A handshake opens the shared image; a handshake's frame size
    /// (4 times the width, then times the height) must fit in a `u32`.
    pub fn on_message(&mut self, message: Option<StellarMessage>) -> (r: HostMessageAction)
        requires
            message matches Some(StellarMessage::HandshakeResponse(h)) ==> 4 * h.resolution.0 <= u32::MAX
                && frame_bytes(h.resolution) <= u32::MAX,
        ensures
            match message {
                None => r == HostMessageAction::Invalid && *final(self) == *old(self),
                Some(StellarMessage::HandshakeResponse(h)) => {
                    &&& r matches HostMessageAction::Handshake { frame_len, shimg_path, handshake }
                        && frame_len == frame_bytes(h.resolution) && shimg_path@ == h.shimg_path@
                        && handshake == h
                    &&& *final(self) == (HyperwarpClient { image_open: true, ..*old(self) })
                },
                Some(StellarMessage::NewFrame) => {
                    &&& r == (if old(self).image_open {
                        HostMessageAction::ReadFrame
                    } else {
                        HostMessageAction::FrameWithoutImage
                    })
                    &&& *final(self) == *old(self)
                },
                Some(StellarMessage::SynchronizationEvent(s)) => r == HostMessageAction::Synchronize(s)
                    && *final(self) == *old(self),
                Some(StellarMessage::DebugInfoResponseV2(info, source)) => {
                    &&& (if old(self).socket_known {
                        r == HostMessageAction::DebugResponse { source, report: info.message }
                    } else {
                        r == HostMessageAction::Ignore
                    })
                    &&& *final(self) == *old(self)
                },
                Some(StellarMessage::ReplyDataChannelMessage(source, channel, m)) => r
                    == HostMessageAction::SendDirect(source, channel, m) && *final(self) == *old(self),
                Some(StellarMessage::BroadcastDataChannelMessage(channel, m)) => r
                    == HostMessageAction::BroadcastDirect(channel, m) && *final(self) == *old(self),
                _ => r == HostMessageAction::Ignore && *final(self) == *old(self),
            },
    {
        match message {
            None => HostMessageAction::Invalid,
            Some(StellarMessage::HandshakeResponse(h)) => {
                let frame_len = 4 * h.resolution.0 * h.resolution.1;
                let shimg_path = String::from_str(h.shimg_path.as_str());
                self.image_open = true;
                HostMessageAction::Handshake { frame_len, shimg_path, handshake: h }
            },
            Some(StellarMessage::NewFrame) => {
                if self.image_open {
                    HostMessageAction::ReadFrame
                } else {
                    HostMessageAction::FrameWithoutImage
                }
            },
            Some(StellarMessage::SynchronizationEvent(s)) => HostMessageAction::Synchronize(s),
            Some(StellarMessage::DebugInfoResponseV2(info, source)) => {
                if self.socket_known {
                    HostMessageAction::DebugResponse { source, report: info.message }
                } else {
                    HostMessageAction::Ignore
                }
            },
            Some(StellarMessage::ReplyDataChannelMessage(source, channel, m)) => HostMessageAction::SendDirect(
                source,
                channel,
                m,
            ),
            Some(StellarMessage::BroadcastDataChannelMessage(channel, m)) => HostMessageAction::BroadcastDirect(
                channel,
                m,
            ),
            Some(_) => HostMessageAction::Ignore,
        }
    }

    /// Takes a signal and returns the message to send to the host, if any:
    /// input (when frames come from the injected application), a debug
    /// request, or a forwarded data-channel message, each only while
    /// connected. A created socket is remembered.
    pub fn on_signal(&mut self, signal: StreamerSignal) -> (r: Option<StellarMessage>)
        ensures
            match signal {
                StreamerSignal::SocketCreated => r is None && *final(self) == (HyperwarpClient {
                    socket_known: true,
                    ..*old(self)
                }),
                StreamerSignal::ProcessInput(ev) => *final(self) == *old(self) && r == (if old(
                    self,
                ).externally_capturing && old(self).endpoint is Some {
                    Some(StellarMessage::UserInputEvent(ev))
                } else {
                    None
                }),
                StreamerSignal::DebugInfoRequest => *final(self) == *old(self) && r == (if old(
                    self,
                ).endpoint is Some {
                    Some(StellarMessage::DebugInfoRequestV2)
                } else {
                    None
                }),
                StreamerSignal::ForwardedDataChannelMessage(source, m) => *final(self) == *old(self)
                    && r == (if old(self).endpoint is Some {
                    Some(StellarMessage::ForwardedDataChannelMessage(source, m))
                } else {
                    None
                }),
                StreamerSignal::DataChannelContent(_) => r is None && *final(self) == *old(self),
            },
    {
        match signal {
            StreamerSignal::SocketCreated => {
                self.socket_known = true;
                None
            },
            StreamerSignal::ProcessInput(ev) => {
                if self.externally_capturing && self.endpoint.is_some() {
                    Some(StellarMessage::UserInputEvent(ev))
                } else {
                    None
                }
            },
            StreamerSignal::DebugInfoRequest => {
                if self.endpoint.is_some() {
                    Some(StellarMessage::DebugInfoRequestV2)
                } else {
                    None
                }
            },
            StreamerSignal::ForwardedDataChannelMessage(source, m) => {
                if self.endpoint.is_some() {
                    Some(StellarMessage::ForwardedDataChannelMessage(source, m))
                } else {
                    None
                }
            },
            StreamerSignal::DataChannelContent(_) => None,
        }
    }
}

/// What a data-channel message from a browser client leads to.
#[derive(Debug, PartialEq)]
pub enum DataChannelDecision {
    /// Input for the host process.
    Input(InputEvent),
    /// A message for the host process, from this client.
    Forward(String, StellarDirectControlMessage),
    /// A message for the host process, but nowhere to send it.
    NowhereToForward,
    Unhandled,
}

/// Decides a data-channel message from a client: keys and mouse become input
/// for the host; gamepad, mouse-lock and title messages are forwarded while
/// the host link exists (`has_host_link`); the rest is not handled.
pub fn data_channel_decision(
    source: String,
    message: StellarDirectControlMessage,
    has_host_link: bool,
) -> (r: DataChannelDecision)
    ensures
        match input_event_for(message) {
            Some(ev) => r == DataChannelDecision::Input(ev),
            None => if forwarded(message) {
                if has_host_link {
                    r == DataChannelDecision::Forward(source, message)
                } else {
                    r == DataChannelDecision::NowhereToForward
                }
            } else {
                r == DataChannelDecision::Unhandled
            },
        },
{
    match direct_message_to_input_event(&message) {
        Some(ev) => DataChannelDecision::Input(ev),
        None => {
            if should_forward_data_channel_message(&message) {
                if has_host_link {
                    DataChannelDecision::Forward(source, message)
                } else {
                    DataChannelDecision::NowhereToForward
                }
            } else {
                DataChannelDecision::Unhandled
            }
        },
    }
}

/// Where a browser message from the signalling server goes.
#[derive(Debug, PartialEq)]
pub enum PeerRoute {
    /// Fewer than two values: nothing to do.
    TooShort,
    /// The first value is not the sender's socket id.
    MissingSource,
    /// The second value is not a frontend message.
    Malformed,
    /// Ask the host process for its debug report (while linked to it).
    HyperwarpDebugInfo,
    /// Hand to the streaming loop, which may change the pipeline.
    ToPipeline(String, StellarFrontendMessage),
    /// Known and deliberately left alone.
    Ignored,
    Unhandled,
}

/// Whether `r` is where a browser message goes, given how many values it
/// had, its sender (if the first value is text) and the frontend message the
/// second value decodes to (if it does).
pub open spec fn peer_route_ok(
    value_count: usize,
    source: Option<String>,
    message: Option<StellarFrontendMessage>,
    has_host_link: bool,
    r: PeerRoute,
) -> bool {
    if value_count < 2 {
        r == PeerRoute::TooShort
    } else if source is None {
        r == PeerRoute::MissingSource
    } else if message is None {
        r == PeerRoute::Malformed
    } else {
        match message.unwrap() {
            StellarFrontendMessage::Test { .. } | StellarFrontendMessage::Ping { .. }
            | StellarFrontendMessage::EndSessionRequest { .. } => r == PeerRoute::Ignored,
            StellarFrontendMessage::HyperwarpDebugInfoRequest { .. } => r == (if has_host_link {
                PeerRoute::HyperwarpDebugInfo
            } else {
                PeerRoute::Ignored
            }),
            m => if mutates_pipeline(m) {
                r == PeerRoute::ToPipeline(source.unwrap(), m)
            } else {
                r == PeerRoute::Unhandled
            },
        }
    }
}

/// Routes a browser message from the signalling server (see `peer_route_ok`).
pub fn route_peer_message(
    value_count: usize,
    source: Option<String>,
    message: Option<StellarFrontendMessage>,
    has_host_link: bool,
) -> (r: PeerRoute)
    ensures
        peer_route_ok(value_count, source, message, has_host_link, r),
{
    if value_count < 2 {
        return PeerRoute::TooShort;
    }
    match source {
        None => PeerRoute::MissingSource,
        Some(src) => match message {
            None => PeerRoute::Malformed,
            Some(m) => match m {
                StellarFrontendMessage::Test { .. } => PeerRoute::Ignored,
                StellarFrontendMessage::Ping { .. } => PeerRoute::Ignored,
                StellarFrontendMessage::EndSessionRequest { .. } => PeerRoute::Ignored,
                StellarFrontendMessage::HyperwarpDebugInfoRequest { .. } => {
                    if has_host_link {
                        PeerRoute::HyperwarpDebugInfo
                    } else {
                        PeerRoute::Ignored
                    }
                },
                other => {
                    if may_mutate_pipeline(&other) {
                        PeerRoute::ToPipeline(src, other)
                    } else {
                        PeerRoute::Unhandled
                    }
                },
            },
        },
    }
}

} // verus!
