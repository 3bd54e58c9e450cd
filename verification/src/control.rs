//! The host's control server: which requests wait for the main tick, who
//! subscribes to which channel, whom a signal reaches, and what a tick answers.
//! Connections are named by the integer id of their resource.
use vstd::prelude::*;
use crossbeam_queue::SegQueue;
use vstd::string::StringExecFns;
use crate::host::{DefaultHostBehavior, FeatureFlags, LastSentState, Window, frame_fits, resize_due};
use crate::settings::{Config, get_unix_socket_path};
use crate::protocol::{GraphicsAPI, Handshake, StellarChannel, StellarMessage, Synchornization};

verus! {

/// A request that the control thread hands to the main tick, with the
/// connection that asked.
#[derive(Debug, Clone, Copy, PartialEq, Eq, Structural)]
pub enum MainTickMessage {
    RequestResolutionBroadcast(u64),
    RequestShImgPath(u64),
    RequestHandshake(u64),
}

/// What the control thread does with one received message.
#[derive(Debug, Clone, Copy, PartialEq, Eq, Structural)]
pub enum ControlOutcome {
    Queued(MainTickMessage),
    Subscribed(StellarChannel),
    Ignored,
}

/// What one received message (`None` where it did not decode) leads to.
pub open spec fn control_outcome(endpoint: u64, message: Option<StellarMessage>) -> ControlOutcome {
    match message {
        Some(StellarMessage::ResolutionRequest) => ControlOutcome::Queued(
            MainTickMessage::RequestResolutionBroadcast(endpoint),
        ),
        Some(StellarMessage::ShImgPathRequest) => ControlOutcome::Queued(
            MainTickMessage::RequestShImgPath(endpoint),
        ),
        Some(StellarMessage::HandshakeRequest) => ControlOutcome::Queued(
            MainTickMessage::RequestHandshake(endpoint),
        ),
        Some(StellarMessage::SubscribeChannel(channel)) => ControlOutcome::Subscribed(channel),
        _ => ControlOutcome::Ignored,
    }
}

/// A signal to the control thread.
#[derive(Debug, PartialEq)]
pub enum InternalSignals {
    TestSignal,
    TracingSignal,
    NewFrameSignal,
    SendToChannelSignal(StellarChannel, StellarMessage),
}

/// The subscribers of `s` whose readiness flag (by position, among the first
/// `n`) is set, in their order.
pub open spec fn kept(s: Seq<u64>, ready: Seq<bool>, n: nat) -> Seq<u64>
    decreases n,
{
    if n == 0 {
        Seq::empty()
    } else {
        let rest = kept(s, ready, (n - 1) as nat);
        if ready[n - 1] {
            rest.push(s[n - 1])
        } else {
            rest
        }
    }
}

/// The subscribers of every channel, each list in the order of subscription.
#[derive(Debug)]
pub struct PubSub {
    frame: Vec<u64>,
    synchronizations: Vec<u64>,
    window_changes: Vec<u64>,
    signaling: Vec<u64>,
}

impl PubSub {
    /// The subscribers of a channel.
    pub closed spec fn subscribers(self, channel: StellarChannel) -> Seq<u64> {
        match channel {
            StellarChannel::Frame => self.frame@,
            StellarChannel::Synchornizations => self.synchronizations@,
            StellarChannel::WindowChanges => self.window_changes@,
            StellarChannel::Signaling => self.signaling@,
        }
    }

    /// Every channel, with no subscriber.
    pub fn new() -> (r: PubSub)
        ensures
            forall|c: StellarChannel| #[trigger] r.subscribers(c) == Seq::<u64>::empty(),
    {
        PubSub {
            frame: Vec::new(),
            synchronizations: Vec::new(),
            window_changes: Vec::new(),
            signaling: Vec::new(),
        }
    }

    /// The subscribers of a channel, in the order they subscribed.
    pub fn subscribers_of(&self, channel: StellarChannel) -> (r: &Vec<u64>)
        ensures
            r@ == self.subscribers(channel),
    {
        match channel {
            StellarChannel::Frame => &self.frame,
            StellarChannel::Synchornizations => &self.synchronizations,
            StellarChannel::WindowChanges => &self.window_changes,
            StellarChannel::Signaling => &self.signaling,
        }
    }

    /// Adds a subscriber at the end of a channel's list; the other channels
    /// keep theirs. Subscribing twice lists the connection twice.
    pub fn subscribe(&mut self, channel: StellarChannel, endpoint: u64)
        ensures
            final(self).subscribers(channel) == old(self).subscribers(channel).push(endpoint),
            forall|c: StellarChannel|
                c != channel ==> #[trigger] final(self).subscribers(c) == old(self).subscribers(c),
    {
        match channel {
            StellarChannel::Frame => self.frame.push(endpoint),
            StellarChannel::Synchornizations => self.synchronizations.push(endpoint),
            StellarChannel::WindowChanges => self.window_changes.push(endpoint),
            StellarChannel::Signaling => self.signaling.push(endpoint),
        }
    }

    /// Keeps, of a channel's subscribers, those whose readiness flag (given by
    /// position) is set, in their order; the other channels keep theirs.
    pub fn retain_ready(&mut self, channel: StellarChannel, ready: &Vec<bool>)
        requires
            ready.len() == old(self).subscribers(channel).len(),
        ensures
            final(self).subscribers(channel) == kept(
                old(self).subscribers(channel),
                ready@,
                ready.len() as nat,
            ),
            forall|c: StellarChannel|
                c != channel ==> #[trigger] final(self).subscribers(c) == old(self).subscribers(c),
    {
        let current = self.subscribers_of(channel);
        let mut out: Vec<u64> = Vec::new();
        let mut i: usize = 0;
        while i < current.len()
            invariant
                i <= current.len(),
                current.len() == ready.len(),
                out@ == kept(current@, ready@, i as nat),
            decreases current.len() - i,
        {
            if ready[i] {
                out.push(current[i]);
            }
            i = i + 1;
        }
        match channel {
            StellarChannel::Frame => self.frame = out,
            StellarChannel::Synchornizations => self.synchronizations = out,
            StellarChannel::WindowChanges => self.window_changes = out,
            StellarChannel::Signaling => self.signaling = out,
        }
    }

    /// Handles one received message: a request for the main tick is returned
    /// to be queued, a subscription is recorded, anything else is ignored.
    pub fn handle_message(&mut self, endpoint: u64, message: &Option<StellarMessage>) -> (r: ControlOutcome)
        ensures
            r == control_outcome(endpoint, *message),
            forall|c: StellarChannel| #[trigger]
                final(self).subscribers(c) == (if r == ControlOutcome::Subscribed(c) {
                    old(self).subscribers(c).push(endpoint)
                } else {
                    old(self).subscribers(c)
                }),
    {
        match message {
            Some(StellarMessage::ResolutionRequest) => ControlOutcome::Queued(
                MainTickMessage::RequestResolutionBroadcast(endpoint),
            ),
            Some(StellarMessage::ShImgPathRequest) => ControlOutcome::Queued(
                MainTickMessage::RequestShImgPath(endpoint),
            ),
            Some(StellarMessage::HandshakeRequest) => ControlOutcome::Queued(
                MainTickMessage::RequestHandshake(endpoint),
            ),
            Some(StellarMessage::SubscribeChannel(channel)) => {
                self.subscribe(*channel, endpoint);
                ControlOutcome::Subscribed(*channel)
            },
            _ => ControlOutcome::Ignored,
        }
    }

    /// The connections a signal is sent to. A new frame goes to the frame
    /// subscribers that are still ready (the others are dropped first, their
    /// readiness given by position); a channel message goes to every
    /// subscriber of its channel; the other signals reach nobody.
    pub fn signal_recipients(&mut self, signal: &InternalSignals, frame_ready: &Vec<bool>) -> (r: Vec<u64>)
        requires
            *signal == InternalSignals::NewFrameSignal ==> frame_ready.len() == old(
                self,
            ).subscribers(StellarChannel::Frame).len(),
        ensures
            match *signal {
                InternalSignals::NewFrameSignal => {
                    &&& final(self).subscribers(StellarChannel::Frame) == kept(
                        old(self).subscribers(StellarChannel::Frame),
                        frame_ready@,
                        frame_ready.len() as nat,
                    )
                    &&& forall|c: StellarChannel|
                        c != StellarChannel::Frame ==> #[trigger] final(self).subscribers(c)
                            == old(self).subscribers(c)
                    &&& r@ == final(self).subscribers(StellarChannel::Frame)
                },
                InternalSignals::SendToChannelSignal(channel, _) => {
                    &&& forall|c: StellarChannel| #[trigger]
                        final(self).subscribers(c) == old(self).subscribers(c)
                    &&& r@ == old(self).subscribers(channel)
                },
                _ => {
                    &&& forall|c: StellarChannel| #[trigger]
                        final(self).subscribers(c) == old(self).subscribers(c)
                    &&& r@ == Seq::<u64>::empty()
                },
            },
    {
        match signal {
            InternalSignals::NewFrameSignal => {
                self.retain_ready(StellarChannel::Frame, frame_ready);
                self.subscribers_of(StellarChannel::Frame).clone()
            },
            InternalSignals::SendToChannelSignal(channel, _) => {
                self.subscribers_of(*channel).clone()
            },
            _ => Vec::new(),
        }
    }
}

/// Pruning never adds a connection: whatever stays was a subscriber, and no
/// more stay than were checked.
pub proof fn law_pruning_never_adds(s: Seq<u64>, ready: Seq<bool>, n: nat)
    requires
        n <= s.len(),
        n <= ready.len(),
    ensures
        kept(s, ready, n).len() <= n,
        forall|x: u64| kept(s, ready, n).contains(x) ==> s.contains(x),
    decreases n,
{
    if n > 0 {
        law_pruning_never_adds(s, ready, (n - 1) as nat);
        let rest = kept(s, ready, (n - 1) as nat);
        assert forall|x: u64| kept(s, ready, n).contains(x) implies s.contains(x) by {
            if ready[n - 1] {
                let i = choose|i: int| 0 <= i < rest.push(s[n - 1]).len() && #[trigger] rest.push(s[n - 1])[i] == x;
                if i < rest.len() {
                    assert(rest.contains(x));
                } else {
                    assert(s[n - 1] == x);
                }
            }
        }
    }
}

/// When every subscriber is still ready, pruning keeps them all, in order.
pub proof fn law_all_ready_keeps_everyone(s: Seq<u64>, ready: Seq<bool>)
    requires
        ready.len() == s.len(),
        forall|i: int| 0 <= i < ready.len() ==> ready[i],
    ensures
        kept(s, ready, s.len()) == s,
{
    lemma_all_ready_prefix(s, ready, s.len());
    assert(s.take(s.len() as int) =~= s);
}

proof fn lemma_all_ready_prefix(s: Seq<u64>, ready: Seq<bool>, n: nat)
    requires
        n <= s.len(),
        ready.len() == s.len(),
        forall|i: int| 0 <= i < ready.len() ==> ready[i],
    ensures
        kept(s, ready, n) == s.take(n as int),
    decreases n,
{
    if n > 0 {
        lemma_all_ready_prefix(s, ready, (n - 1) as nat);
        assert(s.take(n as int) =~= s.take((n - 1) as int).push(s[n - 1]));
    }
}

/// The connection that a request for the main tick came from.
pub open spec fn requester(m: MainTickMessage) -> u64 {
    match m {
        MainTickMessage::RequestResolutionBroadcast(e) => e,
        MainTickMessage::RequestShImgPath(e) => e,
        MainTickMessage::RequestHandshake(e) => e,
    }
}

/// Each of the three requests is handed to the main tick, to be answered to
/// the connection that sent it, and each as a request of its own kind; a
/// subscription subscribes to the channel it names; nothing else, and nothing
/// undecodable, is acted on.
pub proof fn law_requests_reach_the_tick_for_their_sender(endpoint: u64, message: Option<StellarMessage>)
    ensures
        (message == Some(StellarMessage::ResolutionRequest) || message == Some(StellarMessage::ShImgPathRequest)
            || message == Some(StellarMessage::HandshakeRequest)) <==> control_outcome(endpoint, message) is Queued,
        control_outcome(endpoint, message) matches ControlOutcome::Queued(m) ==> requester(m) == endpoint,
        control_outcome(endpoint, message) == ControlOutcome::Queued(MainTickMessage::RequestResolutionBroadcast(
            endpoint,
        )) <==> message == Some(StellarMessage::ResolutionRequest),
        control_outcome(endpoint, message) == ControlOutcome::Queued(MainTickMessage::RequestShImgPath(endpoint))
            <==> message == Some(StellarMessage::ShImgPathRequest),
        control_outcome(endpoint, message) == ControlOutcome::Queued(MainTickMessage::RequestHandshake(endpoint))
            <==> message == Some(StellarMessage::HandshakeRequest),
        message matches Some(StellarMessage::SubscribeChannel(c)) ==> control_outcome(endpoint, message)
            == ControlOutcome::Subscribed(c),
        message is None ==> control_outcome(endpoint, message) == ControlOutcome::Ignored,
{
}

/// A connection that subscribes to a channel is among those that the next
/// message on that channel is sent to.
pub proof fn law_subscriber_receives_channel_messages(
    before: PubSub,
    after: PubSub,
    channel: StellarChannel,
    endpoint: u64,
)
    requires
        after.subscribers(channel) == before.subscribers(channel).push(endpoint),
    ensures
        after.subscribers(channel).contains(endpoint),
{
    assert(after.subscribers(channel)[before.subscribers(channel).len() as int] == endpoint);
}

/// What the host announces when its state changes: the current framebuffer
/// size (the host reports no graphics API there).
pub fn get_sync(fb_size: Option<(u32, u32)>) -> (r: Synchornization)
    ensures
        r.resolution == fb_size,
        r.graphics_api is None,
{
    Synchornization { resolution: fb_size, graphics_api: None }
}

/// The host's handshake: its framebuffer size (0×0 before there is one), the
/// path of its shared frame image and its graphics API.
pub fn get_handshake(fb_size: Option<(u32, u32)>, shimg_path: &str, graphics_api: GraphicsAPI) -> (r: Handshake)
    ensures
        r.resolution == (match fb_size {
            Some(s) => s,
            None => (0u32, 0u32),
        }),
        r.shimg_path@ == shimg_path@,
        r.graphics_api == graphics_api,
{
    let resolution = match fb_size {
        Some(s) => s,
        None => (0, 0),
    };
    Handshake { resolution, shimg_path: String::from_str(shimg_path), graphics_api }
}

/// The size of the host's framebuffer, once both dimensions are known.
pub open spec fn fb_size_of(b: DefaultHostBehavior) -> Option<(u32, u32)> {
    match (b.fb_width, b.fb_height) {
        (Some(w), Some(h)) => Some((w, h)),
        _ => None,
    }
}

/// The transport that the control server also listens on.
#[derive(Debug, Clone, Copy, PartialEq, Eq, Structural)]
pub enum BindProtocol {
    Udp,
    Tcp,
}

/// What the main tick produced: the synchronisation to announce, if one is
/// due and the server runs, and the replies to send.
#[derive(Debug, PartialEq)]
pub struct TickOutput {
    pub sync: Option<Synchornization>,
    pub replies: Vec<(u64, StellarMessage)>,
}

/// The requests left after a main tick: all but the oldest.
pub open spec fn after_tick_queue(queue: Seq<MainTickMessage>) -> Seq<MainTickMessage> {
    if queue.len() > 0 { queue.drop_first() } else { queue }
}

/// Whether `r` is what a main tick produces for a host whose behaviour is
/// `b` (its framebuffer set up), that last announced `last`, with requests
/// `queue` waiting, its server running or not, for session `session`: a
/// synchronisation when the size changed and the server runs, and the
/// answers to the oldest request while the server runs.
pub open spec fn tick_ok(
    b: DefaultHostBehavior,
    last: (u32, u32),
    queue: Seq<MainTickMessage>,
    running: bool,
    session: Seq<char>,
    graphics_api: GraphicsAPI,
    r: TickOutput,
) -> bool {
    &&& r.sync == (if last != fb_size_of(b).unwrap() && running {
        Some(Synchornization { resolution: fb_size_of(b), graphics_api: None })
    } else {
        None
    })
    &&& if queue.len() > 0 && running {
        tick_replies_ok(Some(queue[0]), fb_size_of(b), "/dev/shm/"@ + session + ".raw"@, graphics_api, r.replies@)
    } else {
        r.replies@.len() == 0
    }
}

#[verifier::external_type_specification]
#[verifier::external_body]
#[verifier::reject_recursive_types(T)]
pub struct ExSegQueue<T>(SegQueue<T>);

/// The requests that a queue holds, oldest first.
pub uninterp spec fn queued(q: SegQueue<MainTickMessage>) -> Seq<MainTickMessage>;

/// A new queue (`crossbeam_queue::SegQueue::new`): it holds nothing.
#[verifier::external_body]
fn queue_new() -> (r: SegQueue<MainTickMessage>)
    ensures
        queued(r) == Seq::<MainTickMessage>::empty(),
{
    SegQueue::new()
}

/// `crossbeam_queue::SegQueue::push`: the request goes to the back.
#[verifier::external_body]
fn queue_push(q: &mut SegQueue<MainTickMessage>, m: MainTickMessage)
    ensures
        queued(*final(q)) == queued(*old(q)).push(m),
{
    q.push(m)
}

/// `crossbeam_queue::SegQueue::pop`: the front request is taken out and
/// returned; an empty queue gives nothing and stays empty.
#[verifier::external_body]
fn queue_pop(q: &mut SegQueue<MainTickMessage>) -> (r: Option<MainTickMessage>)
    ensures
        queued(*old(q)).len() == 0 ==> r is None && queued(*final(q)) == queued(*old(q)),
        queued(*old(q)).len() > 0 ==> r == Some(queued(*old(q))[0]) && queued(*final(q)) == queued(
            *old(q),
        ).drop_first(),
{
    q.pop()
}

/// The host inside an application: its configuration, the libraries seen,
/// its behaviour, the requests waiting for the main tick (oldest first), what
/// it last announced, and whether its control server runs and frames are
/// being captured.
pub struct ApplicationHost {
    pub config: Config,
    pub features: FeatureFlags,
    pub behavior: DefaultHostBehavior,
    pub command_queue: SegQueue<MainTickMessage>,
    pub last_sent_state: LastSentState,
    pub server_running: bool,
    pub capturing: bool,
}

/// Whether a host keeps its configuration, the libraries it has seen, and
/// whether its server runs and frames are captured.
pub open spec fn keeps_setup(before: ApplicationHost, after: ApplicationHost) -> bool {
    &&& after.config == before.config
    &&& after.features == before.features
    &&& after.server_running == before.server_running
    &&& after.capturing == before.capturing
}

impl ApplicationHost {
    /// The requests waiting for the main tick, oldest first.
    pub open spec fn pending(self) -> Seq<MainTickMessage> {
        queued(self.command_queue)
    }

    /// A host for a configuration: nothing seen, the default behaviour, no
    /// request waiting, 0×0 last announced, no server, no capture.
    pub fn new(config: Config) -> (r: ApplicationHost)
        ensures
            r.config == config,
            r.features == (FeatureFlags {
                x11_enabled: false,
                gl_enabled: false,
                glfw_enabled: false,
                glx_enabled: false,
                sdl2_enabled: false,
            }),
            r.behavior.fb_width is None && r.behavior.fb_height is None,
            !r.behavior.fb_enabled && r.behavior.fb@.len() == 0 && r.behavior.windows@.len() == 0,
            r.behavior.wf(),
            r.pending().len() == 0,
            r.last_sent_state.resolution == (0u32, 0u32),
            !r.server_running && !r.capturing,
    {
        ApplicationHost {
            config,
            features: FeatureFlags::new(),
            behavior: DefaultHostBehavior::new(),
            command_queue: queue_new(),
            last_sent_state: LastSentState::new(),
            server_running: false,
            capturing: false,
        }
    }

    /// The session's default control socket path: `/tmp/hw-<session>.sock`.
    pub fn get_unix_socket_path(&self) -> (r: String)
        ensures
            r@ == "/tmp/hw-"@ + self.config.session_id@ + ".sock"@,
    {
        get_unix_socket_path(self.config.session_id.as_str())
    }

    /// The path the control server listens on: the configured one, else the
    /// session's default.
    pub fn control_socket_path(&self) -> (r: String)
        ensures
            r@ == (match self.config.unix_socket_path {
                Some(p) => p@,
                None => "/tmp/hw-"@ + self.config.session_id@ + ".sock"@,
            }),
    {
        match &self.config.unix_socket_path {
            Some(p) => String::from_str(p.as_str()),
            None => self.get_unix_socket_path(),
        }
    }

    /// Where else the control server listens: with a bind type configured,
    /// UDP or TCP at the bind address. A bind type needs an address and must
    /// be `udp` or `tcp`.
    pub fn bind_plan(&self) -> (r: Option<(BindProtocol, String)>)
        requires
            self.config.bind_type matches Some(t) ==> self.config.bind_addr is Some && (t@ == "udp"@
                || t@ == "tcp"@),
        ensures
            match self.config.bind_type {
                None => r is None,
                Some(t) => r matches Some((proto, addr)) && addr@ == self.config.bind_addr.unwrap()@
                    && proto == (if t@ == "udp"@ { BindProtocol::Udp } else { BindProtocol::Tcp }),
            },
    {
        match &self.config.bind_type {
            None => None,
            Some(t) => {
                let addr = match &self.config.bind_addr {
                    Some(a) => String::from_str(a.as_str()),
                    None => String::new(),
                };
                if crate::text::str_eq(t.as_str(), "udp") {
                    Some((BindProtocol::Udp, addr))
                } else {
                    Some((BindProtocol::Tcp, addr))
                }
            },
        }
    }

    /// The host's handshake for a graphics API (see `get_handshake`): its
    /// framebuffer size and its session's shared image path.
    pub fn get_handshake(&self, graphics_api: GraphicsAPI) -> (r: Handshake)
        ensures
            r.resolution == (match fb_size_of(self.behavior) {
                Some(s) => s,
                None => (0u32, 0u32),
            }),
            r.shimg_path@ == "/dev/shm/"@ + self.config.session_id@ + ".raw"@,
            r.graphics_api == graphics_api,
    {
        let path = self.behavior.get_shimg_path(self.config.session_id.as_str());
        get_handshake(self.behavior.get_fb_size(), path.as_str(), graphics_api)
    }

    /// The synchronisation the host announces: its framebuffer size.
    pub fn get_sync(&self) -> (r: Synchornization)
        ensures
            r.resolution == fb_size_of(self.behavior),
            r.graphics_api is None,
    {
        get_sync(self.behavior.get_fb_size())
    }

    /// Queues a request for the main tick, after those already waiting.
    pub fn request(&mut self, command: MainTickMessage)
        ensures
            final(self).pending() == old(self).pending().push(command),
            keeps_setup(*old(self), *final(self)),
            final(self).behavior == old(self).behavior,
            final(self).last_sent_state == old(self).last_sent_state,
            final(self).server_running == old(self).server_running,
    {
        queue_push(&mut self.command_queue, command);
    }

    /// One main tick, once the framebuffer is set up. The size is recorded as
    /// the last announced; a change is announced while the server runs. The
    /// oldest waiting request, if any, is taken and answered (see
    /// `tick_replies_ok`) while the server runs, and dropped otherwise.
    pub fn tick(&mut self, graphics_api: GraphicsAPI) -> (r: TickOutput)
        requires
            fb_size_of(old(self).behavior) is Some,
        ensures
            final(self).behavior == old(self).behavior,
            keeps_setup(*old(self), *final(self)),
            final(self).last_sent_state.resolution == fb_size_of(old(self).behavior).unwrap(),
            final(self).pending() == after_tick_queue(old(self).pending()),
            tick_ok(
                old(self).behavior,
                old(self).last_sent_state.resolution,
                old(self).pending(),
                old(self).server_running,
                old(self).config.session_id@,
                graphics_api,
                r,
            ),
    {
        self.behavior.tick();
        let fb_size = self.behavior.get_fb_size();
        let command = queue_pop(&mut self.command_queue);
        let path = self.behavior.get_shimg_path(self.config.session_id.as_str());
        let (changed, replies) = host_tick(&mut self.last_sent_state, fb_size, command, path.as_str(), graphics_api);
        let sync = if changed && self.server_running {
            Some(self.get_sync())
        } else {
            None
        };
        let replies = if self.server_running {
            replies
        } else {
            Vec::new()
        };
        proof {
            if old(self).pending().len() > 0 {
                assert(self.pending() =~= old(self).pending().drop_first());
            }
        }
        TickOutput { sync, replies }
    }

    /// Starts the host: its control server unless control is disabled, and
    /// capturing when the configuration asks for it.
    pub fn start(&mut self, disable_control: bool)
        ensures
            final(self).server_running == (old(self).server_running || !disable_control),
            final(self).capturing == (old(self).capturing || old(self).config.capture_mode),
            final(self).features == old(self).features,
            final(self).behavior == old(self).behavior,
            final(self).pending() == old(self).pending(),
            final(self).last_sent_state == old(self).last_sent_state,
            final(self).config == old(self).config,
    {
        if !disable_control {
            self.server_running = true;
        }
        if self.config.capture_mode {
            self.capturing = true;
        }
    }

    /// The signal that announces the host's state on the synchronisation
    /// channel, while the server runs.
    pub fn sync(&self) -> (r: Option<InternalSignals>)
        ensures
            self.server_running ==> r == Some(InternalSignals::SendToChannelSignal(
                StellarChannel::Synchornizations,
                StellarMessage::SynchronizationEvent(
                    Synchornization { resolution: fb_size_of(self.behavior), graphics_api: None },
                ),
            )),
            !self.server_running ==> r is None,
    {
        if self.server_running {
            Some(InternalSignals::SendToChannelSignal(
                StellarChannel::Synchornizations,
                StellarMessage::SynchronizationEvent(self.get_sync()),
            ))
        } else {
            None
        }
    }

    /// Whether a new frame is announced to the frame subscribers: while the
    /// server runs.
    pub fn notify_frame(&self) -> (r: bool)
        ensures
            r == self.server_running,
    {
        self.server_running
    }

    /// A window was created: the behaviour records it (setting up the
    /// framebuffer where its size is given), then the main tick runs. The
    /// framebuffer must be set up by then.
    pub fn onWindowCreate(
        &mut self,
        win: Window,
        x: Option<i32>,
        y: Option<i32>,
        width: Option<u32>,
        height: Option<u32>,
        graphics_api: GraphicsAPI,
    ) -> (r: TickOutput)
        requires
            old(self).behavior.wf(),
            match (width, height) {
                (Some(w), Some(h)) => frame_fits(w as int, h as int),
                _ => fb_size_of(old(self).behavior) is Some,
            },
        ensures
            keeps_setup(*old(self), *final(self)),
            final(self).behavior.wf(),
            final(self).behavior.windows@ == old(self).behavior.windows@.push(win),
            fb_size_of(final(self).behavior) == (match (width, height) {
                (Some(w), Some(h)) => Some((w, h)),
                _ => fb_size_of(old(self).behavior),
            }),
            final(self).last_sent_state.resolution == fb_size_of(final(self).behavior).unwrap(),
            final(self).pending() == after_tick_queue(old(self).pending()),
            tick_ok(
                final(self).behavior,
                old(self).last_sent_state.resolution,
                old(self).pending(),
                old(self).server_running,
                old(self).config.session_id@,
                graphics_api,
                r,
            ),
    {
        self.behavior.onWindowCreate(win, x, y, width, height);
        self.tick(graphics_api)
    }

    /// A frame swap begins: the behaviour follows the largest window's size
    /// while capturing with GL and SDL and says which frame to read (see
    /// `DefaultHostBehavior::onFrameSwapBegin`), then the main tick runs. The
    /// framebuffer must be set up by then.
    pub fn onFrameSwapBegin(
        &mut self,
        largest_window: Option<(i32, i32)>,
        capture_ready: bool,
        graphics_api: GraphicsAPI,
    ) -> (r: (Option<(u32, u32)>, TickOutput))
        requires
            old(self).behavior.wf(),
            largest_window matches Some((w, h)) ==> 0 <= w && 0 <= h && frame_fits(w as int, h as int),
            resize_due(old(self).behavior, old(self).config.capture_mode, old(self).features, largest_window)
                is Some || fb_size_of(old(self).behavior) is Some,
        ensures
            keeps_setup(*old(self), *final(self)),
            final(self).behavior.wf(),
            final(self).behavior.windows@ == old(self).behavior.windows@,
            fb_size_of(final(self).behavior) == (match resize_due(
                old(self).behavior,
                old(self).config.capture_mode,
                old(self).features,
                largest_window,
            ) {
                Some(s) => Some(s),
                None => fb_size_of(old(self).behavior),
            }),
            r.0 == (if old(self).config.capture_mode && old(self).features.gl_enabled && capture_ready {
                fb_size_of(final(self).behavior)
            } else {
                None
            }),
            final(self).pending() == after_tick_queue(old(self).pending()),
            tick_ok(
                final(self).behavior,
                old(self).last_sent_state.resolution,
                old(self).pending(),
                old(self).server_running,
                old(self).config.session_id@,
                graphics_api,
                r.1,
            ),
    {
        let frame = self.behavior.onFrameSwapBegin(self.config.capture_mode, self.features, largest_window, capture_ready);
        let out = self.tick(graphics_api);
        (frame, out)
    }

    /// A frame swap ended: the main tick runs, the new frame is announced
    /// (while the server runs), and the main tick runs again. The
    /// framebuffer must be set up.
    pub fn onFrameSwapEnd(&mut self, graphics_api: GraphicsAPI) -> (r: (TickOutput, bool, TickOutput))
        requires
            fb_size_of(old(self).behavior) is Some,
        ensures
            keeps_setup(*old(self), *final(self)),
            final(self).behavior == old(self).behavior,
            r.1 == old(self).server_running,
            final(self).last_sent_state.resolution == fb_size_of(old(self).behavior).unwrap(),
            final(self).pending() == after_tick_queue(after_tick_queue(old(self).pending())),
            tick_ok(
                old(self).behavior,
                old(self).last_sent_state.resolution,
                old(self).pending(),
                old(self).server_running,
                old(self).config.session_id@,
                graphics_api,
                r.0,
            ),
            tick_ok(
                old(self).behavior,
                fb_size_of(old(self).behavior).unwrap(),
                after_tick_queue(old(self).pending()),
                old(self).server_running,
                old(self).config.session_id@,
                graphics_api,
                r.2,
            ),
    {
        self.behavior.onFrameSwapEnd();
        let first = self.tick(graphics_api);
        let announced = self.notify_frame();
        let second = self.tick(graphics_api);
        (first, announced, second)
    }
}

/// Whether `replies` are what the main tick sends for `command`: the
/// framebuffer size for a resolution request, the shared image path twice
/// (as a path, then as text) for a path request, the handshake for a
/// handshake request, each to the connection that asked; nothing otherwise.
pub open spec fn tick_replies_ok(
    command: Option<MainTickMessage>,
    fb_size: Option<(u32, u32)>,
    shimg_path: Seq<char>,
    graphics_api: GraphicsAPI,
    replies: Seq<(u64, StellarMessage)>,
) -> bool {
    match command {
        None => replies.len() == 0,
        Some(MainTickMessage::RequestResolutionBroadcast(e)) => {
            &&& replies.len() == 1
            &&& replies[0].0 == e
            &&& replies[0].1 == StellarMessage::ResolutionBroadcastResponse(fb_size)
        },
        Some(MainTickMessage::RequestShImgPath(e)) => {
            &&& replies.len() == 2
            &&& replies[0].0 == e
            &&& replies[1].0 == e
            &&& replies[0].1 matches StellarMessage::ShImgPathResponseStruct(p) && p@ == shimg_path
            &&& replies[1].1 matches StellarMessage::ShImgPathResponse(p) && p@ == shimg_path
        },
        Some(MainTickMessage::RequestHandshake(e)) => {
            &&& replies.len() == 1
            &&& replies[0].0 == e
            &&& replies[0].1 matches StellarMessage::HandshakeResponse(h) && {
                &&& h.resolution == fb_size.unwrap()
                &&& h.shimg_path@ == shimg_path
                &&& h.graphics_api == graphics_api
            }
        },
    }
}

/// One main tick of the host, given the framebuffer size (the host has set
/// one up by then) and the request taken from the queue, if any. It records
/// the size as the last one sent and says whether it changed (a
/// synchronisation is then due), and lists the replies to send.
pub fn host_tick(
    last_sent: &mut LastSentState,
    fb_size: Option<(u32, u32)>,
    command: Option<MainTickMessage>,
    shimg_path: &str,
    graphics_api: GraphicsAPI,
) -> (r: (bool, Vec<(u64, StellarMessage)>))
    requires
        fb_size is Some,
    ensures
        r.0 == (old(last_sent).resolution != fb_size.unwrap()),
        final(last_sent).resolution == fb_size.unwrap(),
        tick_replies_ok(command, fb_size, shimg_path@, graphics_api, r.1@),
{
    let current = match fb_size {
        Some(s) => s,
        None => (0, 0),
    };
    let sync_due = last_sent.record_resolution(current);
    let mut replies: Vec<(u64, StellarMessage)> = Vec::new();
    match command {
        Some(MainTickMessage::RequestResolutionBroadcast(e)) => {
            replies.push((e, StellarMessage::ResolutionBroadcastResponse(fb_size)));
        },
        Some(MainTickMessage::RequestShImgPath(e)) => {
            replies.push((e, StellarMessage::ShImgPathResponseStruct(String::from_str(shimg_path))));
            replies.push((e, StellarMessage::ShImgPathResponse(String::from_str(shimg_path))));
        },
        Some(MainTickMessage::RequestHandshake(e)) => {
            let handshake = get_handshake(fb_size, shimg_path, graphics_api);
            replies.push((e, StellarMessage::HandshakeResponse(handshake)));
        },
        None => {},
    }
    (sync_due, replies)
}

} // verus!
