//! The plain data of the Stellar protocol: channels, states, messages, input
//! events and controller identities, with their defaults.
use vstd::prelude::*;
use vstd::string::StringExecFns;

verus! {

/// A publish/subscribe channel of the host's control socket.
#[derive(Debug, Clone, Copy, PartialEq, Eq, Structural, Hash)]
pub enum StellarChannel {
    Frame,
    Synchornizations,
    WindowChanges,
    Signaling,
}

/// The graphics API that an application renders with.
#[derive(Debug, Clone, Copy, PartialEq, Eq, Structural, Hash)]
pub enum GraphicsAPI {
    Unknown,
    OpenGL,
    Vulkan,
    DirectX,
    Metal,
}

/// A video encoding preset of the streamer.
#[derive(Debug, Clone, Copy, PartialEq, Eq, Structural, Hash)]
pub enum EncodingPreset {
    H264,
    H265,
    VP8,
    VP9,
    AV1,
    Unknown,
}

/// Extra optimisations of the streaming pipeline.
#[derive(Debug, Clone, Copy, PartialEq, Eq, Structural, Hash)]
pub enum PipelineOptimization {
    NoOptimization,
    Intel,
    NVIDIA,
    AMD,
    DMABuf,
    CUDA,
}

/// Every channel, in declaration order.
pub open spec fn all_channels() -> Seq<StellarChannel> {
    seq![
        StellarChannel::Frame,
        StellarChannel::Synchornizations,
        StellarChannel::WindowChanges,
        StellarChannel::Signaling,
    ]
}

/// Lists every channel once, in declaration order.
pub fn get_all_channels() -> (r: Vec<StellarChannel>)
    ensures
        r@ == all_channels(),
{
    let mut v: Vec<StellarChannel> = Vec::new();
    v.push(StellarChannel::Frame);
    v.push(StellarChannel::Synchornizations);
    v.push(StellarChannel::WindowChanges);
    v.push(StellarChannel::Signaling);
    v
}

/// What the host tells a streamer when they first meet. The path of the shared
/// frame image is held as text.
#[derive(Debug, PartialEq)]
pub struct Handshake {
    pub resolution: (u32, u32),
    pub shimg_path: String,
    pub graphics_api: GraphicsAPI,
}

/// The state of a session between host and streamer.
#[derive(Debug, Clone, Copy, PartialEq, Eq, Structural)]
pub enum SessionState {
    Initalizing,
    Handshaking,
    Ready,
    Disconnecting,
}

/// The wire number of a session state.
pub open spec fn session_state_code(state: SessionState) -> u8 {
    match state {
        SessionState::Initalizing => 0,
        SessionState::Handshaking => 1,
        SessionState::Ready => 2,
        SessionState::Disconnecting => 9,
    }
}

/// The wire number of a session state.
pub fn session_state_to_u8(state: SessionState) -> (r: u8)
    ensures
        r == session_state_code(state),
{
    match state {
        SessionState::Initalizing => 0,
        SessionState::Handshaking => 1,
        SessionState::Ready => 2,
        SessionState::Disconnecting => 9,
    }
}

/// Distinct session states go over the wire as distinct numbers, and so do
/// distinct streamer states.
pub proof fn law_state_codes_unshared(a: SessionState, b: SessionState, c: StreamerState, d: StreamerState)
    ensures
        session_state_code(a) == session_state_code(b) ==> a == b,
        streamer_state_code(c) == streamer_state_code(d) ==> c == d,
{
}

/// The state of a streamer.
#[derive(Debug, Clone, Copy, PartialEq, Eq, Structural)]
pub enum StreamerState {
    Initalizing,
    Handshaking,
    Running,
}

/// The wire number of a streamer state.
pub open spec fn streamer_state_code(state: StreamerState) -> u8 {
    match state {
        StreamerState::Initalizing => 0,
        StreamerState::Handshaking => 1,
        StreamerState::Running => 2,
    }
}

/// The wire number of a streamer state.
pub fn streamer_state_to_u8(state: StreamerState) -> (r: u8)
    ensures
        r == streamer_state_code(state),
{
    match state {
        StreamerState::Initalizing => 0,
        StreamerState::Handshaking => 1,
        StreamerState::Running => 2,
    }
}

/// Who the host process is.
#[derive(Debug, Clone, PartialEq)]
pub struct HostInfo {
    pub name: String,
    pub pid: u32,
    pub graphics_api: GraphicsAPI,
}

impl HostInfo {
    /// The host information of a process with the given program name (the file
    /// name of its first argument, where it has one) and process id.
    pub fn from_process(program_name: Option<String>, pid: u32) -> (r: HostInfo)
        ensures
            r.name@ == (match program_name {
                Some(n) => n@,
                None => "unknown"@,
            }),
            r.pid == pid,
            r.graphics_api == GraphicsAPI::Unknown,
    {
        let name = match program_name {
            Some(n) => n,
            None => String::from_str("unknown"),
        };
        HostInfo { name, pid, graphics_api: GraphicsAPI::Unknown }
    }
}

/// State that may change; every part is optional.
#[derive(Debug, Clone, Copy, PartialEq, Eq)]
pub struct Synchornization {
    pub resolution: Option<(u32, u32)>,
    pub graphics_api: Option<GraphicsAPI>,
}

/// A debug report.
#[derive(Debug, Clone, PartialEq)]
pub struct DebugInfo {
    pub message: String,
}

/// What each client may do.
#[derive(Debug, Clone, Copy, PartialEq, Eq, Structural)]
pub struct PrivligeDefinition {
    pub can_chat: bool,
    pub can_resize: bool,
    pub can_mouse: bool,
    pub can_touchscreen: bool,
    pub can_keyboard: bool,
    pub can_controller: bool,
    pub can_manage_controllers: bool,
    pub can_admin: bool,
}

/// The privileges that grant everything.
pub open spec fn full_privileges() -> PrivligeDefinition {
    PrivligeDefinition {
        can_chat: true,
        can_resize: true,
        can_mouse: true,
        can_touchscreen: true,
        can_keyboard: true,
        can_controller: true,
        can_manage_controllers: true,
        can_admin: true,
    }
}

/// The privileges a client has unless told otherwise: all of them.
pub fn create_default_acl() -> (r: PrivligeDefinition)
    ensures
        r == full_privileges(),
{
    PrivligeDefinition {
        can_chat: true,
        can_resize: true,
        can_mouse: true,
        can_touchscreen: true,
        can_keyboard: true,
        can_controller: true,
        can_manage_controllers: true,
        can_admin: true,
    }
}

impl Default for PrivligeDefinition {
    fn default() -> (r: Self)
        ensures
            r == full_privileges(),
    {
        create_default_acl()
    }
}

/// A controller model, after SDL's game controller types.
#[derive(Debug, Clone, Copy, PartialEq, Eq, Structural, Hash)]
pub enum GameControllerType {
    Unknown,
    Xbox360,
    XboxOne,
    PS3,
    PS4,
    PS5,
    SwitchPro,
    SwitchJoyConLeft,
    SwitchJoyConRight,
    SwitchJoyConPair,
}

/// How a controller input is bound.
#[derive(Debug, Clone, Copy, PartialEq, Eq, Structural, Hash)]
pub enum GameControllerBindType {
    Unbound,
    Button,
    Axis,
}

/// The controller type assumed where a client names none.
pub fn get_default_gamepad_type() -> (r: GameControllerType)
    ensures
        r == GameControllerType::Xbox360,
{
    GameControllerType::Xbox360
}

/// The hat count assumed where a client names none.
pub fn get_default_hats() -> (r: i32)
    ensures
        r == 0,
{
    0
}

/// Whether buffers captured through an API must be flipped vertically.
pub fn should_flip_buffers_for_graphics_api(gapi: GraphicsAPI) -> (r: bool)
    ensures
        r == (gapi == GraphicsAPI::OpenGL),
{
    match gapi {
        GraphicsAPI::OpenGL => true,
        GraphicsAPI::Vulkan => false,
        GraphicsAPI::DirectX => false,
        GraphicsAPI::Metal => false,
        GraphicsAPI::Unknown => false,
    }
}

/// Messages between a browser frontend and the streamer.
#[derive(Debug, Clone, PartialEq)]
pub enum StellarFrontendMessage {
    Test { time: u64 },
    Ping { ping_payload: String },
    Ice { candidate: String, sdp_mline_index: u32 },
    Sdp { type_: String, sdp: String },
    ProvisionWebRTC { rtc_provision_start: u64 },
    ProvisionWebRTCReply { provision_ok: bool },
    Error { error: String },
    Message { message: String },
    DebugInfoRequest { debug_info_request: u64 },
    DebugResponse { debug: String },
    OfferRequest { offer_request_source: String },
    DefineACL { acl: PrivligeDefinition, socket_id: String },
    HyperwarpDebugInfoRequest { hyperwarp_debug_info_request: u64 },
    HyperwarpDebugResponse { hyperwarp_debug: String, source: String },
    EndSessionRequest { end_session_request: u64 },
}

/// Whether handling a frontend message may change the streaming pipeline:
/// ICE candidates, SDP, WebRTC provisioning, debug requests and offer requests.
pub open spec fn mutates_pipeline(message: StellarFrontendMessage) -> bool {
    ||| message is Ice
    ||| message is Sdp
    ||| message is ProvisionWebRTC
    ||| message is DebugInfoRequest
    ||| message is OfferRequest
}

/// Whether handling a frontend message may change the streaming pipeline.
pub fn may_mutate_pipeline(message: &StellarFrontendMessage) -> (r: bool)
    ensures
        r == mutates_pipeline(*message),
{
    match message {
        StellarFrontendMessage::Ice { .. } => true,
        StellarFrontendMessage::Sdp { .. } => true,
        StellarFrontendMessage::ProvisionWebRTC { .. } => true,
        StellarFrontendMessage::DebugInfoRequest { .. } => true,
        StellarFrontendMessage::OfferRequest { .. } => true,
        _ => false,
    }
}

/// Messages on a WebRTC data channel between a browser and the streamer.
/// Floating-point values travel as their IEEE-754 bit patterns (`f32` as
/// `u32`, `f64` as `u64`): the library only carries them.
#[derive(Debug, Clone, PartialEq)]
pub enum StellarDirectControlMessage {
    UpdateWindowTitle { title: String },
    KeyChange { key: String, code: String, composition: bool, state: bool, timestamp: u64 },
    UpdateWindowSize { width: u32, height: u32 },
    MouseMoveRelative { x: i32, y: i32, timestamp: u64 },
    MouseMoveAbsolute { x: i32, y: i32, timestamp: u64 },
    MouseButton { change: u8, buttons: u8, state: bool, timestamp: u64 },
    MouseLock { state: bool },
    MouseScroll { delta_x: u32, delta_y: u32, timestamp: u64 },
    RequestTitle,
    AddGamepad {
        local_id: String,
        product_type: GameControllerType,
        axes: i32,
        buttons: i32,
        hats: i32,
    },
    AddGamepadReply { local_id: String, remote_id: String, success: bool, message: String },
    UpdateGamepad { remote_id: String, axes: Vec<u64>, buttons: Vec<bool>, hats: Option<Vec<i32>> },
    RemoveGamepad { remote_id: String },
    RemoveGamepadReply { remote_id: String, success: bool, message: String },
}

/// Where an input event came from, as the input manager saw it.
#[derive(Debug, Clone, Copy, PartialEq, Eq, Structural)]
pub struct InputContext {
    pub modifiers: u16,
    pub buttons: u8,
    pub mouse_x: i32,
    pub mouse_y: i32,
}

impl InputContext {
    /// The empty context: no modifiers, no buttons, mouse at the origin.
    pub fn new() -> (r: InputContext)
        ensures
            r == (InputContext { modifiers: 0, buttons: 0, mouse_x: 0, mouse_y: 0 }),
    {
        InputContext { modifiers: 0, buttons: 0, mouse_x: 0, mouse_y: 0 }
    }
}

/// The timestamps of an input event.
#[derive(Debug, Clone, Copy, PartialEq, Eq)]
pub struct InputMetadata {
    pub sdl2_timestamp_ticks: Option<u32>,
    pub sdl2_timestamp_ticks_u64: Option<u64>,
    pub sdl3_timestamp_ticks: Option<u32>,
    pub sdl3_timestamp_ticks_u64: Option<u64>,
}

/// Metadata without any timestamp.
pub open spec fn blank_metadata() -> InputMetadata {
    InputMetadata {
        sdl2_timestamp_ticks: None,
        sdl2_timestamp_ticks_u64: None,
        sdl3_timestamp_ticks: None,
        sdl3_timestamp_ticks_u64: None,
    }
}

impl InputMetadata {
    /// Metadata without any timestamp.
    pub fn new() -> (r: InputMetadata)
        ensures
            r == blank_metadata(),
    {
        InputMetadata {
            sdl2_timestamp_ticks: None,
            sdl2_timestamp_ticks_u64: None,
            sdl3_timestamp_ticks: None,
            sdl3_timestamp_ticks_u64: None,
        }
    }
}

/// What an input event does. Floating-point values are held as their `f64`
/// bit patterns.
#[derive(Debug, Clone, PartialEq)]
pub enum InputEventPayload {
    MouseMoveRelative { x: i32, y: i32, x_absolute: i32, y_absolute: i32 },
    MouseMoveAbsolute(i32, i32, i32, i32),
    KeyEvent { key: u32, scancode: u32, state: bool, modifiers: u16 },
    KeyEventLite { key: u32, state: bool },
    MouseButtonsSet { buttons: u8 },
    MouseButtonsChange { change: u8, state: bool },
    JoystickBrowserUpdate { id: String, axis: Vec<u64>, buttons: Vec<bool> },
    JoystickAxis { id: String, axis: u8, value: u64 },
    JoystickButton { id: String, button: u8, pressed: bool },
}

/// An input event with its timestamps and, once known, its context.
#[derive(Debug, Clone, PartialEq)]
pub struct InputEvent {
    pub payload: InputEventPayload,
    pub metadata: InputMetadata,
    pub context: Option<InputContext>,
}

impl InputEvent {
    /// An event without timestamps or context.
    pub fn new(payload: InputEventPayload) -> (r: InputEvent)
        ensures
            r.payload == payload,
            r.metadata == blank_metadata(),
            r.context is None,
    {
        InputEvent { payload, metadata: InputMetadata::new(), context: None }
    }

    /// Attaches a context, replacing any earlier one.
    pub fn add_context(&mut self, context: InputContext)
        ensures
            final(self).payload == old(self).payload,
            final(self).metadata == old(self).metadata,
            final(self).context == Some(context),
    {
        self.context = Some(context);
    }
}

/// A USB vendor and product id.
#[derive(Debug, Clone, Copy, PartialEq, Eq, Structural)]
pub struct UsbIdentification {
    pub vendor_id: u16,
    pub product_id: u16,
}

/// The USB identity that a virtual controller of a type presents; unknown
/// types present as an Xbox 360 controller.
pub open spec fn usb_id_of(product_type: GameControllerType) -> UsbIdentification {
    match product_type {
        GameControllerType::Xbox360 => UsbIdentification { vendor_id: 0x045e, product_id: 0x028e },
        GameControllerType::XboxOne => UsbIdentification { vendor_id: 0x045e, product_id: 0x028f },
        GameControllerType::PS3 => UsbIdentification { vendor_id: 0x054c, product_id: 0x0268 },
        GameControllerType::PS4 => UsbIdentification { vendor_id: 0x054c, product_id: 0x05c4 },
        GameControllerType::PS5 => UsbIdentification { vendor_id: 0x054c, product_id: 0x09cc },
        GameControllerType::SwitchPro => UsbIdentification { vendor_id: 0x057e, product_id: 0x2009 },
        GameControllerType::SwitchJoyConLeft => UsbIdentification { vendor_id: 0x057e, product_id: 0x2006 },
        GameControllerType::SwitchJoyConRight => UsbIdentification { vendor_id: 0x057e, product_id: 0x2007 },
        GameControllerType::SwitchJoyConPair => UsbIdentification { vendor_id: 0x057e, product_id: 0x2008 },
        GameControllerType::Unknown => UsbIdentification { vendor_id: 0x045e, product_id: 0x028e },
    }
}

/// Each known kind of controller presents its own USB identity, under its
/// maker's vendor number: Microsoft's for Xbox controllers, Sony's for
/// PlayStation ones, Nintendo's for Switch ones.
pub proof fn law_usb_ids_identify_the_controller(a: GameControllerType, b: GameControllerType)
    ensures
        a != GameControllerType::Unknown && b != GameControllerType::Unknown && usb_id_of(a) == usb_id_of(b) ==> a
            == b,
        (a == GameControllerType::Xbox360 || a == GameControllerType::XboxOne || a == GameControllerType::Unknown)
            <==> usb_id_of(a).vendor_id == 0x045e,
        (a == GameControllerType::PS3 || a == GameControllerType::PS4 || a == GameControllerType::PS5)
            <==> usb_id_of(a).vendor_id == 0x054c,
        (a == GameControllerType::SwitchPro || a == GameControllerType::SwitchJoyConLeft || a
            == GameControllerType::SwitchJoyConRight || a == GameControllerType::SwitchJoyConPair)
            <==> usb_id_of(a).vendor_id == 0x057e,
{
}

impl UsbIdentification {
    /// 045e:028e.
    pub fn new_xbox360() -> (r: UsbIdentification)
        ensures
            r == usb_id_of(GameControllerType::Xbox360),
    {
        UsbIdentification { vendor_id: 0x045e, product_id: 0x028e }
    }

    /// 045e:028f.
    pub fn new_xboxone() -> (r: UsbIdentification)
        ensures
            r == usb_id_of(GameControllerType::XboxOne),
    {
        UsbIdentification { vendor_id: 0x045e, product_id: 0x028f }
    }

    /// 054c:0268.
    pub fn new_ps3() -> (r: UsbIdentification)
        ensures
            r == usb_id_of(GameControllerType::PS3),
    {
        UsbIdentification { vendor_id: 0x054c, product_id: 0x0268 }
    }

    /// 054c:05c4.
    pub fn new_ps4() -> (r: UsbIdentification)
        ensures
            r == usb_id_of(GameControllerType::PS4),
    {
        UsbIdentification { vendor_id: 0x054c, product_id: 0x05c4 }
    }

    /// 054c:09cc.
    pub fn new_ps5() -> (r: UsbIdentification)
        ensures
            r == usb_id_of(GameControllerType::PS5),
    {
        UsbIdentification { vendor_id: 0x054c, product_id: 0x09cc }
    }

    /// 057e:2009.
    pub fn new_switch_pro() -> (r: UsbIdentification)
        ensures
            r == usb_id_of(GameControllerType::SwitchPro),
    {
        UsbIdentification { vendor_id: 0x057e, product_id: 0x2009 }
    }

    /// 057e:2006.
    pub fn new_switch_joycon_left() -> (r: UsbIdentification)
        ensures
            r == usb_id_of(GameControllerType::SwitchJoyConLeft),
    {
        UsbIdentification { vendor_id: 0x057e, product_id: 0x2006 }
    }

    /// 057e:2007.
    pub fn new_switch_joycon_right() -> (r: UsbIdentification)
        ensures
            r == usb_id_of(GameControllerType::SwitchJoyConRight),
    {
        UsbIdentification { vendor_id: 0x057e, product_id: 0x2007 }
    }

    /// 057e:2008.
    pub fn new_switch_joycon_pair() -> (r: UsbIdentification)
        ensures
            r == usb_id_of(GameControllerType::SwitchJoyConPair),
    {
        UsbIdentification { vendor_id: 0x057e, product_id: 0x2008 }
    }

    /// 0000:0000.
    pub fn new_unknown() -> (r: UsbIdentification)
        ensures
            r == (UsbIdentification { vendor_id: 0, product_id: 0 }),
    {
        UsbIdentification { vendor_id: 0, product_id: 0 }
    }

    /// The identity a virtual controller of `product_type` presents.
    pub fn from_product_type(product_type: GameControllerType) -> (r: UsbIdentification)
        ensures
            r == usb_id_of(product_type),
    {
        match product_type {
            GameControllerType::Xbox360 => UsbIdentification::new_xbox360(),
            GameControllerType::XboxOne => UsbIdentification::new_xboxone(),
            GameControllerType::PS3 => UsbIdentification::new_ps3(),
            GameControllerType::PS4 => UsbIdentification::new_ps4(),
            GameControllerType::PS5 => UsbIdentification::new_ps5(),
            GameControllerType::SwitchPro => UsbIdentification::new_switch_pro(),
            GameControllerType::SwitchJoyConLeft => UsbIdentification::new_switch_joycon_left(),
            GameControllerType::SwitchJoyConRight => UsbIdentification::new_switch_joycon_right(),
            GameControllerType::SwitchJoyConPair => UsbIdentification::new_switch_joycon_pair(),
            _ => UsbIdentification::new_xbox360(),
        }
    }
}

impl Default for UsbIdentification {
    fn default() -> (r: Self)
        ensures
            r == usb_id_of(GameControllerType::Xbox360),
    {
        UsbIdentification::new_xbox360()
    }
}

/// Messages between the host process and the streamer. Paths travel as text.
#[derive(Debug, PartialEq)]
pub enum StellarMessage {
    Test,
    Hello,
    HelloName(String),
    Version,
    NewFrame,
    ToggleDebugOverlay,
    ToggleDebugOverlayResponse(bool),
    ShImgPathRequest,
    ShImgPathResponse(String),
    ShImgPathResponseStruct(String),
    ResolutionRequest,
    ResolutionBroadcastResponse(Option<(u32, u32)>),
    HandshakeRequest,
    HandshakeResponse(Handshake),
    SynchronizationEvent(Synchornization),
    SubscribeChannel(StellarChannel),
    UnsubscribeChannel(StellarChannel),
    DebugInfoRequest,
    DebugInfoResponse(DebugInfo),
    DebugInfoRequestV2,
    DebugInfoResponseV2(DebugInfo, String),
    UserInputEvent(InputEvent),
    ForwardedDataChannelMessage(String, StellarDirectControlMessage),
    ReplyDataChannelMessage(String, String, StellarDirectControlMessage),
    BroadcastDataChannelMessage(String, StellarDirectControlMessage),
}

} // verus!
