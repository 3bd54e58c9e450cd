use hyperwarp::dynapi::{dynapi_plan, dynapi_slot, record_dynapi_pointer, DynapiSlot};
use hyperwarp::symbols::{query_dlsym_cache, DlsymCache, Pointer, Sdl2Hook};

#[test]
fn slots_by_table_size() {
    assert_eq!(dynapi_slot(0, 10, true), DynapiSlot::Table(0));
    assert_eq!(dynapi_slot(10, 10, true), DynapiSlot::Table(10));
    assert_eq!(dynapi_slot(11, 10, true), DynapiSlot::Internal(11));
    assert_eq!(dynapi_slot(11, 10, false), DynapiSlot::Skip);
    assert_eq!(dynapi_slot(600, 10, true), DynapiSlot::Internal(600));
    assert_eq!(dynapi_slot(602, 10, true), DynapiSlot::Skip);
    assert_eq!(dynapi_slot(700, 800, false), DynapiSlot::Table(700));
}

#[test]
fn plan_hooks_known_functions() {
    let funcs = vec!["SDL_Init".to_string(), "SDL_Quit".to_string(), "SDL_PollEvent".to_string()];
    let plan = dynapi_plan(&funcs, 1, false);
    assert_eq!(plan.len(), 3);
    assert_eq!(plan[0].slot, DynapiSlot::Table(0));
    assert_eq!(plan[0].hook, Some(Sdl2Hook::Init));
    assert_eq!(plan[1].hook, None);
    assert_eq!(plan[2].slot, DynapiSlot::Skip);
    assert_eq!(plan[2].hook, None);
    let plan = dynapi_plan(&funcs, 1, true);
    assert_eq!(plan[2].slot, DynapiSlot::Internal(2));
    assert_eq!(plan[2].hook, Some(Sdl2Hook::PollEvent));
}

#[test]
fn pointers_are_cached_under_both_names() {
    let mut cache = DlsymCache::new();
    record_dynapi_pointer(&mut cache, "SDL_Init", 0x1234);
    assert_eq!(query_dlsym_cache(&cache, "SDL_Init"), Some(Pointer(0x1234)));
    assert_eq!(query_dlsym_cache(&cache, "SDL_Init_hw_sdl_dynapi"), Some(Pointer(0x1234)));
    assert_eq!(query_dlsym_cache(&cache, "SDL_Quit"), None);
}
