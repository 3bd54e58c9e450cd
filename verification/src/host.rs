//! The host side of an injected application: libraries, windows, detected
//! features, the framebuffer that frames are captured into, and the frame
//! message header.
use vstd::prelude::*;
use vstd::string::StringExecFns;

verus! {

/// A library or kind of resource that the host deals with.
#[derive(Debug, Copy, Clone, PartialEq, Eq, Structural)]
pub enum Library {
    SDL2,
    SDL3,
    GLFW,
    Xlib,
    EGL,
    GLX,
    Other,
    RustNative,
    CNative,
}

/// Whether a library is one of SDL's.
pub fn is_SDL(lib: Library) -> (r: bool)
    ensures
        r == (lib == Library::SDL2 || lib == Library::SDL3),
{
    match lib {
        Library::SDL2 | Library::SDL3 => true,
        _ => false,
    }
}

/// Xlib's `XWindowChanges`: a window's geometry and stacking.
#[derive(Debug, Copy, Clone, PartialEq, Eq, Structural)]
pub struct XWindowChanges {
    pub x: i32,
    pub y: i32,
    pub width: i32,
    pub height: i32,
    pub border_width: i32,
    pub sibling: u64,
    pub stack_mode: u64,
}

/// A window of the application, known by its handle.
#[derive(Debug, Clone, Copy, PartialEq, Eq)]
pub struct Window {
    pub id: usize,
    pub lib: Library,
    pub width: u32,
    pub height: u32,
    pub position: Option<(i32, i32)>,
}

impl Window {
    /// The window's handle, as an address.
    pub fn as_ptr(&self) -> (r: usize)
        ensures
            r == self.id,
    {
        self.id
    }

    /// A window of size 0×0 at no known position.
    pub fn new(id: usize, lib: Library) -> (r: Self)
        ensures
            r == (Window { id, lib, width: 0, height: 0, position: None }),
    {
        Window { id, lib, width: 0, height: 0, position: None }
    }

    /// Records a new size.
    pub fn resize(&mut self, width: u32, height: u32)
        ensures
            *final(self) == (Window { width, height, ..*old(self) }),
    {
        self.width = width;
        self.height = height;
    }

    /// Records a new position.
    pub fn position(&mut self, x: i32, y: i32)
        ensures
            *final(self) == (Window { position: Some((x, y)), ..*old(self) }),
    {
        self.position = Some((x, y));
    }
}

/// Which libraries have been seen in use.
#[derive(Clone, Copy, Debug, PartialEq, Eq, Structural)]
pub struct FeatureFlags {
    pub x11_enabled: bool,
    pub gl_enabled: bool,
    pub glfw_enabled: bool,
    pub glx_enabled: bool,
    pub sdl2_enabled: bool,
}

impl FeatureFlags {
    /// Nothing seen yet.
    pub fn new() -> (r: Self)
        ensures
            r == (FeatureFlags {
                x11_enabled: false,
                gl_enabled: false,
                glfw_enabled: false,
                glx_enabled: false,
                sdl2_enabled: false,
            }),
    {
        FeatureFlags {
            x11_enabled: false,
            gl_enabled: false,
            glfw_enabled: false,
            glx_enabled: false,
            sdl2_enabled: false,
        }
    }
}

/// What was last sent to subscribers.
#[derive(Debug, Clone, Copy, PartialEq, Eq)]
pub struct LastSentState {
    pub resolution: (u32, u32),
}

impl LastSentState {
    /// Nothing sent yet: resolution 0×0.
    pub fn new() -> (r: Self)
        ensures
            r.resolution == (0u32, 0u32),
    {
        LastSentState { resolution: (0, 0) }
    }

    /// Takes the current framebuffer size; tells whether it differs from the
    /// one last sent (then a synchronisation is due, and it becomes the last sent).
    pub fn record_resolution(&mut self, current: (u32, u32)) -> (changed: bool)
        ensures
            changed == (old(self).resolution != current),
            final(self).resolution == current,
    {
        let changed = self.resolution.0 != current.0 || self.resolution.1 != current.1;
        self.resolution = current;
        changed
    }
}

/// A request to the frame-writer thread.
#[derive(Debug, Clone, Copy, PartialEq, Eq, Structural)]
pub enum FrameWriterThreadMessage {
    Stop,
    NewFrame,
}

/// A request to the frame-writer thread.
#[derive(Debug, Clone, Copy, PartialEq, Eq, Structural)]
pub enum ThreadMessage {
    Stop,
    NewFrame,
}

/// Bytes per framebuffer pixel (RGBA).
pub const BYTES_PER_PIXEL: u32 = 4;

/// The host's default behaviour: the windows seen and the RGBA framebuffer
/// that frames are captured into.
#[derive(Debug)]
pub struct DefaultHostBehavior {
    pub fb_width: Option<u32>,
    pub fb_height: Option<u32>,
    pub fb_enabled: bool,
    pub fb: Vec<u8>,
    pub windows: Vec<Window>,
}

/// The framebuffer of a `width`×`height` frame: set up, zeroed, 4 bytes a pixel.
pub open spec fn framebuffer_set_up(b: DefaultHostBehavior, width: u32, height: u32) -> bool {
    &&& b.fb_width == Some(width)
    &&& b.fb_height == Some(height)
    &&& b.fb_enabled
    &&& b.fb@.len() == width * height * 4
    &&& forall|i: int| 0 <= i < b.fb@.len() ==> b.fb@[i] == 0
}

/// Whether a `width`×`height` RGBA frame's size fits a `u32`.
pub open spec fn frame_fits(width: int, height: int) -> bool {
    0 <= width * height * 4 <= u32::MAX
}

/// The area of each window, in order, and the choice of the largest: a window
/// is taken where its area exceeds that of every window before it and 0.
/// Gives the chosen area, size and index (-1 where none was taken).
pub open spec fn largest_scan(sizes: Seq<(i32, i32)>) -> (int, int, int, int)
    decreases sizes.len(),
{
    if sizes.len() == 0 {
        (0, 0, 0, -1)
    } else {
        let prev = largest_scan(sizes.drop_last());
        let (w, h) = sizes.last();
        if w * h > prev.0 {
            (w * h, w as int, h as int, sizes.len() - 1)
        } else {
            prev
        }
    }
}

/// The area of a window of size `s`.
pub open spec fn area(s: (i32, i32)) -> int {
    s.0 * s.1
}

/// The window taken is one of largest area, the first of them, and its area is
/// positive; no window is taken where none has a positive area. The area
/// found is no less than that of any window and it is the taken window's.
pub proof fn law_largest_window_is_largest(sizes: Seq<(i32, i32)>)
    ensures
        ({
            let (a, w, h, k) = largest_scan(sizes);
            &&& a >= 0
            &&& forall|i: int| 0 <= i < sizes.len() ==> area(#[trigger] sizes[i]) <= a
            &&& k < 0 ==> a == 0 && w == 0 && h == 0 && k == -1
            &&& k >= 0 ==> {
                &&& k < sizes.len()
                &&& sizes[k].0 == w && sizes[k].1 == h
                &&& a == area(sizes[k])
                &&& a > 0
                &&& forall|j: int| 0 <= j < k ==> area(#[trigger] sizes[j]) < a
            }
        }),
    decreases sizes.len(),
{
    if sizes.len() > 0 {
        let init = sizes.drop_last();
        law_largest_window_is_largest(init);
        assert forall|i: int| 0 <= i < init.len() implies #[trigger] sizes[i] == init[i] by {}
        let last = sizes.last();
        assert(last == sizes[sizes.len() - 1]);
    }
}

/// Whether every window's area fits an `i32`.
pub open spec fn areas_fit(sizes: Seq<(i32, i32)>) -> bool {
    forall|i: int| 0 <= i < sizes.len() ==> i32::MIN <= #[trigger] sizes[i].0 * sizes[i].1 <= i32::MAX
}

/// The size the framebuffer is to take at a frame swap: that of the largest
/// window, while capturing with GL and SDL, where it differs from the present one.
pub open spec fn resize_due(
    b: DefaultHostBehavior,
    capture_mode: bool,
    features: FeatureFlags,
    largest_window: Option<(i32, i32)>,
) -> Option<(u32, u32)> {
    match largest_window {
        Some((w, h)) => if capture_mode && features.gl_enabled && features.sdl2_enabled
            && (b.fb_width != Some(w as u32) || b.fb_height != Some(h as u32)) {
            Some((w as u32, h as u32))
        } else {
            None
        },
        None => None,
    }
}

impl DefaultHostBehavior {
    /// Once both dimensions of the framebuffer are known, it holds exactly
    /// four bytes a pixel of that size.
    pub open spec fn wf(self) -> bool {
        match (self.fb_width, self.fb_height) {
            (Some(w), Some(h)) => self.fb@.len() == w * h * 4,
            _ => true,
        }
    }

    /// No window, no framebuffer.
    pub fn new() -> (r: Self)
        ensures
            r.fb_width is None,
            r.fb_height is None,
            !r.fb_enabled,
            r.fb@.len() == 0,
            r.windows@.len() == 0,
            r.wf(),
    {
        DefaultHostBehavior { fb_width: None, fb_height: None, fb_enabled: false, fb: Vec::new(), windows: Vec::new() }
    }

    fn setup_framebuffer(&mut self, width: u32, height: u32)
        requires
            frame_fits(width as int, height as int),
        ensures
            framebuffer_set_up(*final(self), width, height),
            final(self).windows@ == old(self).windows@,
    {
        proof {
            assert(0 <= width * height) by (nonlinear_arith);
            assert(width * height <= width * height * 4) by (nonlinear_arith)
                requires 0 <= width * height;
        }
        let size = width * height * 4;
        self.fb_width = Some(width);
        self.fb_height = Some(height);
        let mut fb: Vec<u8> = Vec::new();
        let mut i: u32 = 0;
        while i < size
            invariant
                i <= size,
                fb@.len() == i,
                forall|j: int| 0 <= j < i ==> fb@[j] == 0,
            decreases size - i,
        {
            fb.push(0);
            i = i + 1;
        }
        self.fb = fb;
        self.fb_enabled = true;
    }

    /// Records a new window; where its size is given, the framebuffer is set up
    /// for it.
    pub fn onWindowCreate(
        &mut self,
        win: Window,
        x: Option<i32>,
        y: Option<i32>,
        width: Option<u32>,
        height: Option<u32>,
    )
        requires
            old(self).wf(),
            match (width, height) {
                (Some(w), Some(h)) => frame_fits(w as int, h as int),
                _ => true,
            },
        ensures
            final(self).wf(),
            final(self).windows@ == old(self).windows@.push(win),
            match (width, height) {
                (Some(w), Some(h)) => framebuffer_set_up(*final(self), w, h),
                _ => final(self).fb_width == old(self).fb_width && final(self).fb_height == old(self).fb_height
                    && final(self).fb_enabled == old(self).fb_enabled && final(self).fb@ == old(self).fb@,
            },
    {
        self.windows.push(win);
        if let Some(width) = width {
            if let Some(height) = height {
                self.setup_framebuffer(width, height);
            }
        }
    }

    /// Nothing to do after a frame swap.
    pub fn onFrameSwapEnd(&mut self)
        ensures
            *final(self) == *old(self),
    {
    }

    /// The framebuffer to capture from.
    pub fn getFramebufferForCapture(&self) -> (r: Option<&Vec<u8>>)
        ensures
            r == Some(&self.fb),
    {
        Some(&self.fb)
    }

    /// Nothing to do on a tick.
    pub fn tick(&mut self)
        ensures
            *final(self) == *old(self),
    {
    }

    /// The framebuffer's size, once both dimensions are known.
    pub fn get_fb_size(&self) -> (r: Option<(u32, u32)>)
        ensures
            r == (match (self.fb_width, self.fb_height) {
                (Some(w), Some(h)) => Some((w, h)),
                _ => None,
            }),
    {
        if let Some(width) = self.fb_width {
            if let Some(height) = self.fb_height {
                return Some((width, height));
            }
        }
        None
    }

    /// The size of the largest SDL window, given each window's size as SDL
    /// reports it (in the order of `windows`); `None` where no window has a
    /// positive area with both sides non-zero.
    pub fn get_largest_sdl2_window(&self, window_sizes: &Vec<(i32, i32)>) -> (r: Option<(i32, i32)>)
        requires
            window_sizes@.len() == self.windows@.len(),
            areas_fit(window_sizes@),
        ensures
            ({
                let (_, w, h, _) = largest_scan(window_sizes@);
                r == (if w == 0 || h == 0 { None } else { Some((w as i32, h as i32)) })
            }),
            r is Some ==> exists|k: int| 0 <= k < window_sizes@.len() && window_sizes@[k] == r.unwrap(),
            r is Some ==> forall|i: int|
                0 <= i < window_sizes@.len() ==> area(#[trigger] window_sizes@[i]) <= area(r.unwrap()),
            r is None ==> forall|i: int| 0 <= i < window_sizes@.len() ==> area(#[trigger] window_sizes@[i]) <= 0,
    {
        let mut la: i32 = 0;
        let mut lw: i32 = 0;
        let mut lh: i32 = 0;
        let ghost mut idx: int = -1;
        let mut i: usize = 0;
        while i < window_sizes.len()
            invariant
                i <= window_sizes@.len(),
                areas_fit(window_sizes@),
                largest_scan(window_sizes@.take(i as int)) == (la as int, lw as int, lh as int, idx),
            decreases window_sizes@.len() - i,
        {
            assert(window_sizes@.take(i + 1).drop_last() =~= window_sizes@.take(i as int));
            assert(window_sizes@.take(i + 1).last() == window_sizes@[i as int]);
            let (w, h) = window_sizes[i];
            assert(i32::MIN <= window_sizes@[i as int].0 * window_sizes@[i as int].1 <= i32::MAX);
            if w * h > la {
                la = w * h;
                lw = w;
                lh = h;
                proof {
                    idx = i as int;
                }
            }
            i = i + 1;
        }
        assert(window_sizes@.take(window_sizes@.len() as int) =~= window_sizes@);
        proof {
            law_largest_window_is_largest(window_sizes@);
            if idx >= 0 {
                assert(window_sizes@[idx] == (lw, lh));
            }
        }
        if lw == 0 || lh == 0 {
            proof {
                assert(lw * lh == 0) by (nonlinear_arith)
                    requires
                        lw == 0 || lh == 0,
                ;
            }
            None
        } else {
            Some((lw, lh))
        }
    }

    /// The SDL id of the largest window (the first of largest positive area),
    /// given each window's size and id as SDL reports them; 0 where no window
    /// has a positive area, and `None` where there is no window.
    pub fn get_largest_sdl2_window_id(&self, window_sizes: &Vec<(i32, i32)>, window_ids: &Vec<u32>) -> (r: Option<u32>)
        requires
            window_sizes@.len() == self.windows@.len(),
            window_ids@.len() == self.windows@.len(),
            areas_fit(window_sizes@),
        ensures
            ({
                let (_, _, _, k) = largest_scan(window_sizes@);
                r == (if self.windows@.len() == 0 {
                    None
                } else if k < 0 {
                    Some(0u32)
                } else {
                    Some(window_ids@[k])
                })
            }),
            self.windows@.len() > 0 && (exists|i: int| 0 <= i < window_sizes@.len() && area(#[trigger] window_sizes@[i]) > 0)
                ==> exists|k: int|
                0 <= k < window_sizes@.len() && r == Some(window_ids@[k]) && (forall|i: int|
                    0 <= i < window_sizes@.len() ==> area(#[trigger] window_sizes@[i]) <= area(window_sizes@[k]))
                    && (forall|j: int| 0 <= j < k ==> area(#[trigger] window_sizes@[j]) < area(window_sizes@[k])),
            self.windows@.len() > 0 && (forall|i: int| 0 <= i < window_sizes@.len() ==> area(#[trigger] window_sizes@[i]) <= 0)
                ==> r == Some(0u32),
    {
        if self.windows.len() == 0 {
            return None;
        }
        let mut la: i32 = 0;
        let mut lw: i32 = 0;
        let mut lh: i32 = 0;
        let mut chosen: u32 = 0;
        let ghost mut idx: int = -1;
        let mut i: usize = 0;
        while i < window_sizes.len()
            invariant
                i <= window_sizes@.len(),
                window_ids@.len() == window_sizes@.len(),
                areas_fit(window_sizes@),
                largest_scan(window_sizes@.take(i as int)) == (la as int, lw as int, lh as int, idx),
                idx < i,
                chosen == (if idx < 0 { 0u32 } else { window_ids@[idx] }),
            decreases window_sizes@.len() - i,
        {
            assert(window_sizes@.take(i + 1).drop_last() =~= window_sizes@.take(i as int));
            assert(window_sizes@.take(i + 1).last() == window_sizes@[i as int]);
            let (w, h) = window_sizes[i];
            assert(i32::MIN <= window_sizes@[i as int].0 * window_sizes@[i as int].1 <= i32::MAX);
            if w * h > la {
                la = w * h;
                lw = w;
                lh = h;
                chosen = window_ids[i];
                proof {
                    idx = i as int;
                }
            }
            i = i + 1;
        }
        assert(window_sizes@.take(window_sizes@.len() as int) =~= window_sizes@);
        proof {
            law_largest_window_is_largest(window_sizes@);
        }
        Some(chosen)
    }

    /// The decisions at the start of a frame swap. While capturing with GL, and
    /// with SDL in use, the framebuffer follows the largest window's size
    /// (`largest_window`, as `get_largest_sdl2_window` finds it); then, where the
    /// capture is ready and the framebuffer's size is known, that size is
    /// returned: a frame of it is to be read and written out.
    pub fn onFrameSwapBegin(
        &mut self,
        capture_mode: bool,
        features: FeatureFlags,
        largest_window: Option<(i32, i32)>,
        capture_ready: bool,
    ) -> (r: Option<(u32, u32)>)
        requires
            old(self).wf(),
            largest_window matches Some((w, h)) ==> 0 <= w && 0 <= h && frame_fits(w as int, h as int),
        ensures
            final(self).wf(),
            final(self).windows@ == old(self).windows@,
            match resize_due(*old(self), capture_mode, features, largest_window) {
                Some((w, h)) => framebuffer_set_up(*final(self), w, h),
                None => final(self).fb_width == old(self).fb_width && final(self).fb_height == old(self).fb_height
                    && final(self).fb_enabled == old(self).fb_enabled && final(self).fb@ == old(self).fb@,
            },
            capture_mode && features.gl_enabled && features.sdl2_enabled && largest_window is Some
                ==> final(self).fb_width == Some(largest_window.unwrap().0 as u32)
                && final(self).fb_height == Some(largest_window.unwrap().1 as u32),
            r == (if capture_mode && features.gl_enabled && capture_ready {
                match (final(self).fb_width, final(self).fb_height) {
                    (Some(w), Some(h)) => Some((w, h)),
                    _ => None,
                }
            } else {
                None
            }),
    {
        if capture_mode && features.gl_enabled {
            if features.sdl2_enabled {
                if let Some((width, height)) = largest_window {
                    let w = width as u32;
                    let h = height as u32;
                    let same_w = match self.fb_width { Some(fw) => fw == w, None => false };
                    let same_h = match self.fb_height { Some(fh) => fh == h, None => false };
                    if !same_w || !same_h {
                        self.setup_framebuffer(w, h);
                    }
                }
            }
            if capture_ready {
                if let (Some(fb_width), Some(fb_height)) = (self.fb_width, self.fb_height) {
                    return Some((fb_width, fb_height));
                }
            }
        }
        None
    }

    /// The path of the shared frame image of a session: `/dev/shm/<session>.raw`.
    pub fn get_shimg_path(&self, session_id: &str) -> (r: String)
        ensures
            r@ == "/dev/shm/"@ + session_id@ + ".raw"@,
    {
        let mut p = String::from_str("/dev/shm/");
        p.append(session_id);
        p.append(".raw");
        p
    }
}

/// A frame message header: the message type and the payload size.
#[derive(Debug, Clone, Copy, PartialEq, Eq, Structural)]
pub struct Message {
    pub type_id: u32,
    pub payload_size: u32,
}

/// A header buffer of 8 zero bytes: 4 for the type id, 4 for the payload size.
pub fn allocate_header_buffer() -> (r: [u8; 8])
    ensures
        forall|i: int| 0 <= i < 8 ==> r@[i] == 0,
{
    [0u8; 8]
}

/// The little-endian number of 4 bytes.
pub open spec fn le_u32(b0: u8, b1: u8, b2: u8, b3: u8) -> int {
    b0 + 256 * b1 + 65536 * b2 + 16777216 * b3
}

impl Message {
    /// The header that 8 received bytes hold: type id then payload size,
    /// each little-endian.
    pub fn from_header(buf: [u8; 8]) -> (r: Message)
        ensures
            r.type_id == le_u32(buf@[0], buf@[1], buf@[2], buf@[3]),
            r.payload_size == le_u32(buf@[4], buf@[5], buf@[6], buf@[7]),
    {
        let type_id = (buf[0] as u32) + 256 * (buf[1] as u32) + 65536 * (buf[2] as u32) + 16777216 * (buf[3] as u32);
        let payload_size = (buf[4] as u32) + 256 * (buf[5] as u32) + 65536 * (buf[6] as u32) + 16777216 * (buf[7] as u32);
        Message { type_id, payload_size }
    }
}

/// A message payload of the frame channel.
#[derive(Debug, Clone, Copy, PartialEq, Eq, Structural)]
pub enum MessagePayload {
    RenderedFrame { width: u32, height: u32 },
}

/// What a host does at each stage of an application's life; every stage does
/// nothing unless an implementation says otherwise.
pub trait HostBehavior {
    fn onStart(&mut self) {
    }

    fn onWindowCreate(
        &mut self,
        win: Window,
        x: Option<i32>,
        y: Option<i32>,
        width: Option<u32>,
        height: Option<u32>,
    ) {
    }

    fn onFrameSwapBegin(&mut self) {
    }

    fn onFrameSwapEnd(&mut self) {
    }

    /// The framebuffer to capture from; by default there is none.
    fn getFramebufferForCapture(&self) -> (r: Option<&Vec<u8>>)
        default_ensures
            r is None,
    {
        None
    }

    fn tick(&mut self) {
    }
}

/// The name the host goes by.
pub const LIBRARY_NAME: &'static str = "Hyperwarp";

/// The name of the host's virtual controllers.
pub const GAMEPAD_NAME: &'static str = "Hyperwarp Virtual Gamepad";

/// The title a window is given: `<title> (Hyperwarp)` where windows are
/// retitled, else the title as it was.
pub fn format_window_title_prefix_cstr(title: &str, retitle_windows: bool) -> (r: String)
    ensures
        r@ == (if retitle_windows { title@ + " ("@ + "Hyperwarp"@ + ")"@ } else { title@ }),
{
    let mut t = String::from_str(title);
    if retitle_windows {
        t.append(" (");
        t.append(LIBRARY_NAME);
        t.append(")");
    }
    t
}

/// The 4 bytes of `v`, least significant first.
pub open spec fn le_bytes(v: u32) -> Seq<u8> {
    seq![(v % 256) as u8, ((v / 256) % 256) as u8, ((v / 65536) % 256) as u8, ((v / 16777216) % 256) as u8]
}

/// The 4 bytes of `v`, most significant first.
pub open spec fn be_bytes(v: u32) -> Seq<u8> {
    le_bytes(v).reverse()
}

/// The in-memory bytes of two numbers: `bytemuck::cast` from `[u32; 2]` to `[u8; 8]`.
/// Trusted: bytemuck reinterprets the array's memory, so each number comes out
/// in the machine's byte order; the contract says only that this is one of
/// the two orders, the same for both numbers.
#[verifier::external_body]
pub fn convert_header_to_u8(v: [u32; 2]) -> (r: [u8; 8])
    ensures
        r@ == le_bytes(v@[0]) + le_bytes(v@[1]) || r@ == be_bytes(v@[0]) + be_bytes(v@[1]),
{
    bytemuck::cast(v)
}

/// The header sent before a broadcast payload of `payload_len` bytes: type id 0
/// and the length (kept to its low 32 bits), in the machine's byte order.
pub fn broadcast_header(payload_len: usize) -> (r: [u8; 8])
    ensures
        r@ == le_bytes(0) + le_bytes(payload_len as u32) || r@ == be_bytes(0) + be_bytes(payload_len as u32),
{
    let header: [u32; 2] = [0, payload_len as u32];
    convert_header_to_u8(header)
}

/// Reading back a little-endian header gives the numbers written: the type id
/// and the payload size.
pub proof fn law_header_read_after_write(type_id: u32, payload_size: u32)
    ensures
        ({
            let b = le_bytes(type_id) + le_bytes(payload_size);
            &&& le_u32(b[0], b[1], b[2], b[3]) == type_id
            &&& le_u32(b[4], b[5], b[6], b[7]) == payload_size
        }),
{
    lemma_le_bytes(type_id);
    lemma_le_bytes(payload_size);
    let b = le_bytes(type_id) + le_bytes(payload_size);
    assert(b[4] == le_bytes(payload_size)[0]);
    assert(b[5] == le_bytes(payload_size)[1]);
    assert(b[6] == le_bytes(payload_size)[2]);
    assert(b[7] == le_bytes(payload_size)[3]);
}

proof fn lemma_le_bytes(v: u32)
    ensures
        le_u32(le_bytes(v)[0], le_bytes(v)[1], le_bytes(v)[2], le_bytes(v)[3]) == v,
{
    let b = le_bytes(v);
    assert(b[0] == v % 256);
    assert(b[1] == (v / 256) % 256);
    assert(b[2] == (v / 65536) % 256);
    assert(b[3] == (v / 16777216) % 256);
    assert(v % 256 + 256 * ((v / 256) % 256) + 65536 * ((v / 65536) % 256) + 16777216 * ((v / 16777216) % 256) == v)
        by (nonlinear_arith)
        requires
            0 <= v < 0x1_0000_0000,
    {
        assert(v == 256 * (v / 256) + v % 256);
        assert(v / 256 == 256 * (v / 65536) + (v / 256) % 256);
        assert(v / 65536 == 256 * (v / 16777216) + (v / 65536) % 256);
        assert(v / 16777216 < 256);
    }
}

} // verus!
