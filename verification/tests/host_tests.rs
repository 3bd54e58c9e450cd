use hyperwarp::host::{
    allocate_header_buffer, format_window_title_prefix_cstr, is_SDL, DefaultHostBehavior, FeatureFlags, LastSentState,
    Library, Message, Window, XWindowChanges, GAMEPAD_NAME, LIBRARY_NAME,
};

fn gl_sdl() -> FeatureFlags {
    FeatureFlags { gl_enabled: true, sdl2_enabled: true, ..FeatureFlags::new() }
}

#[test]
fn sdl_libraries() {
    assert!(is_SDL(Library::SDL2));
    assert!(is_SDL(Library::SDL3));
    assert!(!is_SDL(Library::GLFW));
    assert!(!is_SDL(Library::CNative));
}

#[test]
fn windows() {
    let mut w = Window::new(7, Library::SDL2);
    assert_eq!((w.id, w.width, w.height, w.position), (7, 0, 0, None));
    w.resize(640, 480);
    w.position(10, -5);
    assert_eq!((w.width, w.height, w.position), (640, 480, Some((10, -5))));
    let x = XWindowChanges { x: 1, y: 2, width: 3, height: 4, border_width: 0, sibling: 9, stack_mode: 0 };
    assert_eq!(x.sibling, 9);
}

#[test]
fn no_features_at_first() {
    let f = FeatureFlags::new();
    assert!(!f.x11_enabled && !f.gl_enabled && !f.glfw_enabled && !f.glx_enabled && !f.sdl2_enabled);
}

#[test]
fn window_creation_sets_up_the_framebuffer() {
    let mut b = DefaultHostBehavior::new();
    assert_eq!(b.get_fb_size(), None);
    b.onWindowCreate(Window::new(1, Library::SDL2), None, None, Some(4), None);
    assert_eq!(b.get_fb_size(), None);
    b.onWindowCreate(Window::new(2, Library::SDL2), Some(0), Some(0), Some(4), Some(3));
    assert_eq!(b.get_fb_size(), Some((4, 3)));
    assert_eq!(b.fb.len(), 48);
    assert!(b.fb_enabled);
    assert_eq!(b.windows.len(), 2);
    assert_eq!(b.getFramebufferForCapture().unwrap().len(), 48);
    b.tick();
    b.onFrameSwapEnd();
    assert_eq!(b.get_fb_size(), Some((4, 3)));
}

#[test]
fn largest_window() {
    let mut b = DefaultHostBehavior::new();
    for id in 0..3 {
        b.onWindowCreate(Window::new(id, Library::SDL2), None, None, None, None);
    }
    assert_eq!(b.get_largest_sdl2_window(&vec![(10, 10), (20, 5), (5, 30)]), Some((5, 30)));
    // ties keep the first
    assert_eq!(b.get_largest_sdl2_window(&vec![(10, 10), (20, 5), (4, 25)]), Some((10, 10)));
    assert_eq!(b.get_largest_sdl2_window(&vec![(0, 10), (0, 0), (10, 0)]), None);
    assert_eq!(b.get_largest_sdl2_window_id(&vec![(10, 10), (20, 5), (5, 30)], &vec![11, 12, 13]), Some(13));
    assert_eq!(b.get_largest_sdl2_window_id(&vec![(0, 0), (0, 0), (0, 0)], &vec![11, 12, 13]), Some(0));
    let empty = DefaultHostBehavior::new();
    assert_eq!(empty.get_largest_sdl2_window_id(&vec![], &vec![]), None);
    assert_eq!(empty.get_largest_sdl2_window(&vec![]), None);
}

#[test]
fn frame_swap_follows_the_window_and_captures() {
    let mut b = DefaultHostBehavior::new();
    // not capturing: nothing changes
    assert_eq!(b.onFrameSwapBegin(false, gl_sdl(), Some((8, 6)), true), None);
    assert_eq!(b.get_fb_size(), None);
    // capturing, capture not ready yet: the framebuffer follows the window
    assert_eq!(b.onFrameSwapBegin(true, gl_sdl(), Some((8, 6)), false), None);
    assert_eq!(b.get_fb_size(), Some((8, 6)));
    assert_eq!(b.fb.len(), 8 * 6 * 4);
    // capture ready: read a frame of the framebuffer's size
    assert_eq!(b.onFrameSwapBegin(true, gl_sdl(), Some((8, 6)), true), Some((8, 6)));
    // without SDL the window is not looked at
    let gl_only = FeatureFlags { gl_enabled: true, ..FeatureFlags::new() };
    assert_eq!(b.onFrameSwapBegin(true, gl_only, Some((2, 2)), true), Some((8, 6)));
    // without GL nothing is captured
    assert_eq!(b.onFrameSwapBegin(true, FeatureFlags::new(), Some((2, 2)), true), None);
}

#[test]
fn last_sent_state() {
    let mut s = LastSentState::new();
    assert_eq!(s.resolution, (0, 0));
    assert!(s.record_resolution((640, 480)));
    assert!(!s.record_resolution((640, 480)));
    assert!(s.record_resolution((640, 481)));
    assert_eq!(s.resolution, (640, 481));
}

#[test]
fn paths_and_titles() {
    let b = DefaultHostBehavior::new();
    assert_eq!(b.get_shimg_path("abc"), "/dev/shm/abc.raw");
    assert_eq!(format_window_title_prefix_cstr("Game", true), "Game (Hyperwarp)");
    assert_eq!(format_window_title_prefix_cstr("Game", false), "Game");
    assert_eq!(LIBRARY_NAME, "Hyperwarp");
    assert_eq!(GAMEPAD_NAME, "Hyperwarp Virtual Gamepad");
}

#[test]
fn headers() {
    assert_eq!(allocate_header_buffer(), [0u8; 8]);
    let m = Message::from_header([1, 0, 0, 0, 0x10, 0x27, 0, 1]);
    assert_eq!(m.type_id, 1);
    assert_eq!(m.payload_size, 0x0100_2710);
}
