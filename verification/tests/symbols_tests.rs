use hyperwarp::symbols::{
    forces_dynapi_cache, query_dlsym_cache, route_symbol, should_cache_symbol, try_modify_symbol, DlsymCache,
    Pointer, Sdl2Hook, SymbolRoute,
};

#[test]
fn which_symbols_are_cached() {
    assert!(should_cache_symbol("SDL_Init"));
    assert!(should_cache_symbol("glXSwapBuffers"));
    assert!(should_cache_symbol("XOpenDisplay"));
    assert!(!should_cache_symbol("SDL_Init_hw_direct"));
    assert!(!should_cache_symbol("glClear"));
    assert!(forces_dynapi_cache("SDL_Init"));
    assert!(!forces_dynapi_cache("SDL_Quit"));
}

#[test]
fn sdl_hooks() {
    assert_eq!(try_modify_symbol("SDL_PollEvent"), Some(Sdl2Hook::PollEvent));
    assert_eq!(try_modify_symbol("SDL_GL_SwapWindow"), Some(Sdl2Hook::GlSwapWindow));
    assert_eq!(try_modify_symbol("SDL_Quit"), None);
}

#[test]
fn routing() {
    assert_eq!(route_symbol("SDL_PollEvent_hw_direct"), SymbolRoute::Direct { real_name: "SDL_PollEvent".to_string() });
    assert_eq!(route_symbol("a_hw_directb_hw_direct"), SymbolRoute::Direct { real_name: "ab".to_string() });
    assert_eq!(route_symbol("_internal_rust_launch"), SymbolRoute::RustLaunch);
    assert_eq!(route_symbol("glXSwapBuffers"), SymbolRoute::GlxSwapBuffers);
    assert_eq!(route_symbol("glXSwapBuffersMscOML"), SymbolRoute::GlxSwapBuffersMscOML);
    assert_eq!(route_symbol("glXGetProcAddressARB"), SymbolRoute::GlxGetProcAddress);
    assert_eq!(route_symbol("SDL_CreateWindow"), SymbolRoute::Sdl2(Sdl2Hook::CreateWindow));
    assert_eq!(route_symbol("SDL_DYNAPI_entry"), SymbolRoute::SdlDynapiEntry);
    assert_eq!(route_symbol("malloc"), SymbolRoute::Passthrough);
}

#[test]
fn cache_read_after_write() {
    let mut c = DlsymCache::new();
    assert_eq!(query_dlsym_cache(&c, "SDL_Init"), None);
    c.insert("SDL_Init", Pointer(0x1000));
    c.insert("SDL_Quit", Pointer(0x2000));
    assert_eq!(c.get("SDL_Init"), Some(Pointer(0x1000)));
    c.insert("SDL_Init", Pointer(0x3000));
    assert_eq!(query_dlsym_cache(&c, "SDL_Init"), Some(Pointer(0x3000)));
    assert_eq!(c.get("SDL_Quit").unwrap().as_func(), 0x2000);
    assert_eq!(Pointer(5).as_mut_func(), 5);
    assert!(c.contains_key("SDL_Quit"));
    assert!(!c.contains_key("SDL_Quit_hw_direct"));
    assert_eq!(c.entries.len(), 2);
}
