//! Symbol routing for the `dlsym` hook: which symbols are cached, which are
//! answered with a hook, and the cache of resolved addresses.
use vstd::prelude::*;
use vstd::string::StringExecFns;
use crate::text::{ends_with, has_prefix, has_suffix, starts_with, str_eq, strip_all, strip_all_occurrences};

verus! {

/// The suffix that asks for a symbol's real address, bypassing the hooks.
pub open spec fn direct_suffix() -> Seq<char> {
    seq!['_', 'h', 'w', '_', 'd', 'i', 'r', 'e', 'c', 't']
}

/// A resolved address, as a plain number.
#[derive(Debug, Clone, Copy, PartialEq, Eq, Structural)]
pub struct Pointer(pub usize);

impl Pointer {
    /// The address, for calling.
    pub fn as_func(&self) -> (r: usize)
        ensures
            r == self.0,
    {
        self.0
    }

    /// The address, for calling through a mutable pointer.
    pub fn as_mut_func(&self) -> (r: usize)
        ensures
            r == self.0,
    {
        self.0
    }
}

/// A mutable address, as a plain number.
#[derive(Debug, Clone, Copy, PartialEq, Eq, Structural)]
pub struct MutPointer(pub usize);

/// The SDL2 functions that the host replaces.
#[derive(Debug, Clone, Copy, PartialEq, Eq, Structural)]
pub enum Sdl2Hook {
    Init,
    CreateWindow,
    GlSwapBuffers,
    GlSwapWindow,
    RenderPresent,
    SetWindowTitle,
    GetKeyboardState,
    DestroyWindow,
    PollEvent,
}

/// The hook that replaces an SDL2 function, by its name.
pub open spec fn sdl2_hook_of(name: Seq<char>) -> Option<Sdl2Hook> {
    if name == "SDL_Init"@ {
        Some(Sdl2Hook::Init)
    } else if name == "SDL_CreateWindow"@ {
        Some(Sdl2Hook::CreateWindow)
    } else if name == "SDL_GL_SwapBuffers"@ {
        Some(Sdl2Hook::GlSwapBuffers)
    } else if name == "SDL_GL_SwapWindow"@ {
        Some(Sdl2Hook::GlSwapWindow)
    } else if name == "SDL_RenderPresent"@ {
        Some(Sdl2Hook::RenderPresent)
    } else if name == "SDL_SetWindowTitle"@ {
        Some(Sdl2Hook::SetWindowTitle)
    } else if name == "SDL_GetKeyboardState"@ {
        Some(Sdl2Hook::GetKeyboardState)
    } else if name == "SDL_DestroyWindow"@ {
        Some(Sdl2Hook::DestroyWindow)
    } else if name == "SDL_PollEvent"@ {
        Some(Sdl2Hook::PollEvent)
    } else {
        None
    }
}

/// The hook that replaces an SDL2 function, if the host replaces it.
pub fn try_modify_symbol(symbol_name: &str) -> (r: Option<Sdl2Hook>)
    ensures
        r == sdl2_hook_of(symbol_name@),
{
    if str_eq(symbol_name, "SDL_Init") {
        Some(Sdl2Hook::Init)
    } else if str_eq(symbol_name, "SDL_CreateWindow") {
        Some(Sdl2Hook::CreateWindow)
    } else if str_eq(symbol_name, "SDL_GL_SwapBuffers") {
        Some(Sdl2Hook::GlSwapBuffers)
    } else if str_eq(symbol_name, "SDL_GL_SwapWindow") {
        Some(Sdl2Hook::GlSwapWindow)
    } else if str_eq(symbol_name, "SDL_RenderPresent") {
        Some(Sdl2Hook::RenderPresent)
    } else if str_eq(symbol_name, "SDL_SetWindowTitle") {
        Some(Sdl2Hook::SetWindowTitle)
    } else if str_eq(symbol_name, "SDL_GetKeyboardState") {
        Some(Sdl2Hook::GetKeyboardState)
    } else if str_eq(symbol_name, "SDL_DestroyWindow") {
        Some(Sdl2Hook::DestroyWindow)
    } else if str_eq(symbol_name, "SDL_PollEvent") {
        Some(Sdl2Hook::PollEvent)
    } else {
        None
    }
}

/// Whether a looked-up symbol's real address is cached: SDL, GLX and X
/// symbols, except direct look-ups.
pub open spec fn caches_symbol(name: Seq<char>) -> bool {
    (has_prefix(name, "SDL_"@) || has_prefix(name, "glX"@) || has_prefix(name, "X"@))
        && !has_suffix(name, direct_suffix())
}

/// Whether a looked-up symbol's real address is cached.
pub fn should_cache_symbol(symbol_name: &str) -> (r: bool)
    ensures
        r == caches_symbol(symbol_name@),
{
    proof {
        reveal_strlit("_hw_direct");
        assert("_hw_direct"@ =~= direct_suffix());
    }
    (starts_with(symbol_name, "SDL_") || starts_with(symbol_name, "glX") || starts_with(symbol_name, "X"))
        && !ends_with(symbol_name, "_hw_direct")
}

/// Whether looking up a symbol also caches all of SDL's dynamic-API functions:
/// on `SDL_Init`.
pub fn forces_dynapi_cache(symbol_name: &str) -> (r: bool)
    ensures
        r == (symbol_name@ == "SDL_Init"@),
{
    str_eq(symbol_name, "SDL_Init")
}

/// How the `dlsym` hook answers a symbol.
#[derive(Debug, Clone, PartialEq)]
pub enum SymbolRoute {
    /// The real address of `real_name` (the symbol without its direct suffix).
    Direct { real_name: String },
    /// The host's launch entry point.
    RustLaunch,
    /// The `glXSwapBuffers` hook.
    GlxSwapBuffers,
    /// The `glXSwapBuffersMscOML` hook.
    GlxSwapBuffersMscOML,
    /// The `glXGetProcAddress` hook (also for the ARB name).
    GlxGetProcAddress,
    /// An SDL2 hook.
    Sdl2(Sdl2Hook),
    /// The host's `SDL_DYNAPI_entry`.
    SdlDynapiEntry,
    /// The real address, unchanged.
    Passthrough,
}

/// How the `dlsym` hook answers a symbol: direct look-ups first, then the
/// launch entry, the GLX hooks, the SDL2 hooks and the dynamic-API entry;
/// anything else passes through.
pub open spec fn route_of(name: Seq<char>, route: SymbolRoute) -> bool {
    if has_suffix(name, direct_suffix()) {
        route matches SymbolRoute::Direct { real_name } && real_name@ == strip_all(name, direct_suffix())
    } else if name == "_internal_rust_launch"@ {
        route == SymbolRoute::RustLaunch
    } else if name == "glXSwapBuffers"@ {
        route == SymbolRoute::GlxSwapBuffers
    } else if name == "glXSwapBuffersMscOML"@ {
        route == SymbolRoute::GlxSwapBuffersMscOML
    } else if name == "glXGetProcAddress"@ || name == "glXGetProcAddressARB"@ {
        route == SymbolRoute::GlxGetProcAddress
    } else if sdl2_hook_of(name) is Some {
        route == SymbolRoute::Sdl2(sdl2_hook_of(name).unwrap())
    } else if name == "SDL_DYNAPI_entry"@ {
        route == SymbolRoute::SdlDynapiEntry
    } else {
        route == SymbolRoute::Passthrough
    }
}

/// How the `dlsym` hook answers a symbol.
pub fn route_symbol(symbol_name: &str) -> (r: SymbolRoute)
    ensures
        route_of(symbol_name@, r),
{
    proof {
        reveal_strlit("_hw_direct");
        assert("_hw_direct"@ =~= direct_suffix());
    }
    if ends_with(symbol_name, "_hw_direct") {
        let real_name = strip_all_occurrences(symbol_name, "_hw_direct");
        SymbolRoute::Direct { real_name }
    } else if str_eq(symbol_name, "_internal_rust_launch") {
        SymbolRoute::RustLaunch
    } else if str_eq(symbol_name, "glXSwapBuffers") {
        SymbolRoute::GlxSwapBuffers
    } else if str_eq(symbol_name, "glXSwapBuffersMscOML") {
        SymbolRoute::GlxSwapBuffersMscOML
    } else if str_eq(symbol_name, "glXGetProcAddress") || str_eq(symbol_name, "glXGetProcAddressARB") {
        SymbolRoute::GlxGetProcAddress
    } else if let Some(hook) = try_modify_symbol(symbol_name) {
        SymbolRoute::Sdl2(hook)
    } else if str_eq(symbol_name, "SDL_DYNAPI_entry") {
        SymbolRoute::SdlDynapiEntry
    } else {
        SymbolRoute::Passthrough
    }
}


/// The name of the SDL2 function that a hook replaces.
pub open spec fn hooked_function(h: Sdl2Hook) -> Seq<char> {
    match h {
        Sdl2Hook::Init => "SDL_Init"@,
        Sdl2Hook::CreateWindow => "SDL_CreateWindow"@,
        Sdl2Hook::GlSwapBuffers => "SDL_GL_SwapBuffers"@,
        Sdl2Hook::GlSwapWindow => "SDL_GL_SwapWindow"@,
        Sdl2Hook::RenderPresent => "SDL_RenderPresent"@,
        Sdl2Hook::SetWindowTitle => "SDL_SetWindowTitle"@,
        Sdl2Hook::GetKeyboardState => "SDL_GetKeyboardState"@,
        Sdl2Hook::DestroyWindow => "SDL_DestroyWindow"@,
        Sdl2Hook::PollEvent => "SDL_PollEvent"@,
    }
}

proof fn reveal_hooked_names()
    ensures
        "SDL_Init"@ =~= seq!['S', 'D', 'L', '_', 'I', 'n', 'i', 't'],
        "SDL_CreateWindow"@.len() == 16 && "SDL_CreateWindow"@[4] == 'C' && "SDL_CreateWindow"@[14] == 'o',
        "SDL_GL_SwapBuffers"@.len() == 18 && "SDL_GL_SwapBuffers"@[4] == 'G' && "SDL_GL_SwapBuffers"@[16] == 'r',
        "SDL_GL_SwapWindow"@.len() == 17 && "SDL_GL_SwapWindow"@[4] == 'G' && "SDL_GL_SwapWindow"@[15] == 'o',
        "SDL_RenderPresent"@.len() == 17 && "SDL_RenderPresent"@[4] == 'R' && "SDL_RenderPresent"@[15] == 'n',
        "SDL_SetWindowTitle"@.len() == 18 && "SDL_SetWindowTitle"@[4] == 'S' && "SDL_SetWindowTitle"@[16] == 'l',
        "SDL_GetKeyboardState"@.len() == 20 && "SDL_GetKeyboardState"@[4] == 'G' && "SDL_GetKeyboardState"@[18]
            == 't',
        "SDL_DestroyWindow"@.len() == 17 && "SDL_DestroyWindow"@[4] == 'D' && "SDL_DestroyWindow"@[15] == 'o',
        "SDL_PollEvent"@.len() == 13 && "SDL_PollEvent"@[4] == 'P' && "SDL_PollEvent"@[11] == 'n',
        "_internal_rust_launch"@.len() == 21,
        "glXSwapBuffers"@.len() == 14,
        "glXSwapBuffersMscOML"@.len() == 20 && "glXSwapBuffersMscOML"@[4] == 'w',
        "glXGetProcAddress"@.len() == 17 && "glXGetProcAddress"@[4] == 'e',
        "glXGetProcAddressARB"@.len() == 20 && "glXGetProcAddressARB"@[4] == 'e',
        "SDL_DYNAPI_entry"@.len() == 16 && "SDL_DYNAPI_entry"@[4] == 'D',
{
    reveal_strlit("SDL_Init");
    reveal_strlit("SDL_CreateWindow");
    reveal_strlit("SDL_GL_SwapBuffers");
    reveal_strlit("SDL_GL_SwapWindow");
    reveal_strlit("SDL_RenderPresent");
    reveal_strlit("SDL_SetWindowTitle");
    reveal_strlit("SDL_GetKeyboardState");
    reveal_strlit("SDL_DestroyWindow");
    reveal_strlit("SDL_PollEvent");
    reveal_strlit("_internal_rust_launch");
    reveal_strlit("glXSwapBuffers");
    reveal_strlit("glXSwapBuffersMscOML");
    reveal_strlit("glXGetProcAddress");
    reveal_strlit("glXGetProcAddressARB");
    reveal_strlit("SDL_DYNAPI_entry");
}

/// Each of the SDL2 functions that the host replaces is answered by its own
/// hook, and a name gets a hook only where it is that hook's function.
pub proof fn law_each_hooked_function_gets_its_hook(h: Sdl2Hook, name: Seq<char>)
    ensures
        sdl2_hook_of(hooked_function(h)) == Some(h),
        sdl2_hook_of(name) == Some(h) ==> name == hooked_function(h),
{
    reveal_hooked_names();
    let n = hooked_function(h);
    assert(n != "SDL_Init"@ || h == Sdl2Hook::Init);
    assert(n != "SDL_CreateWindow"@ || h == Sdl2Hook::CreateWindow);
    assert(n != "SDL_GL_SwapBuffers"@ || h == Sdl2Hook::GlSwapBuffers);
    assert(n != "SDL_GL_SwapWindow"@ || h == Sdl2Hook::GlSwapWindow);
    assert(n != "SDL_RenderPresent"@ || h == Sdl2Hook::RenderPresent);
    assert(n != "SDL_SetWindowTitle"@ || h == Sdl2Hook::SetWindowTitle);
    assert(n != "SDL_GetKeyboardState"@ || h == Sdl2Hook::GetKeyboardState);
    assert(n != "SDL_DestroyWindow"@ || h == Sdl2Hook::DestroyWindow);
}

/// The real address of each SDL2 function that the host replaces is cached
/// when it is looked up, and so is that of every GLX function the host hooks.
pub proof fn law_hooked_functions_are_cached(h: Sdl2Hook)
    ensures
        caches_symbol(hooked_function(h)),
        caches_symbol("glXSwapBuffers"@),
        caches_symbol("glXSwapBuffersMscOML"@),
        caches_symbol("glXGetProcAddress"@),
        caches_symbol("glXGetProcAddressARB"@),
{
    reveal_hooked_names();
    reveal_strlit("SDL_");
    reveal_strlit("glX");
    reveal_strlit("glXSwapBuffers");
    reveal_strlit("glXSwapBuffersMscOML");
    reveal_strlit("glXGetProcAddress");
    reveal_strlit("glXGetProcAddressARB");
    reveal_strlit("SDL_Init");
    reveal_strlit("SDL_CreateWindow");
    reveal_strlit("SDL_GL_SwapBuffers");
    reveal_strlit("SDL_GL_SwapWindow");
    reveal_strlit("SDL_RenderPresent");
    reveal_strlit("SDL_SetWindowTitle");
    reveal_strlit("SDL_GetKeyboardState");
    reveal_strlit("SDL_DestroyWindow");
    reveal_strlit("SDL_PollEvent");
    let n = hooked_function(h);
    let d = direct_suffix();
    assert(n.subrange(0, 4) =~= "SDL_"@);
    if has_suffix(n, d) {
        assert(n.subrange(n.len() - d.len(), n.len() as int)[8] == n[n.len() - 2]);
    }
    assert(!has_suffix("glXSwapBuffers"@, d)) by {
        let g = "glXSwapBuffers"@;
        if has_suffix(g, d) {
            assert(g.subrange(g.len() - d.len(), g.len() as int)[9] == g[g.len() - 1]);
        }
    }
    assert(!has_suffix("glXSwapBuffersMscOML"@, d)) by {
        let g = "glXSwapBuffersMscOML"@;
        if has_suffix(g, d) {
            assert(g.subrange(g.len() - d.len(), g.len() as int)[9] == g[g.len() - 1]);
        }
    }
    assert(!has_suffix("glXGetProcAddress"@, d)) by {
        let g = "glXGetProcAddress"@;
        if has_suffix(g, d) {
            assert(g.subrange(g.len() - d.len(), g.len() as int)[9] == g[g.len() - 1]);
        }
    }
    assert(!has_suffix("glXGetProcAddressARB"@, d)) by {
        let g = "glXGetProcAddressARB"@;
        if has_suffix(g, d) {
            assert(g.subrange(g.len() - d.len(), g.len() as int)[9] == g[g.len() - 1]);
        }
    }
    assert("glXSwapBuffers"@.subrange(0, 3) =~= "glX"@);
    assert("glXSwapBuffersMscOML"@.subrange(0, 3) =~= "glX"@);
    assert("glXGetProcAddress"@.subrange(0, 3) =~= "glX"@);
    assert("glXGetProcAddressARB"@.subrange(0, 3) =~= "glX"@);
}

/// Whether `name` holds the direct suffix anywhere.
pub open spec fn holds_direct_suffix(name: Seq<char>) -> bool {
    exists|i: int| 0 <= i <= name.len() && has_prefix(#[trigger] name.skip(i), direct_suffix())
}

/// Taking every direct suffix out of a name that holds none, with one
/// appended, gives the name back.
proof fn lemma_strip_appended_suffix(name: Seq<char>)
    requires
        !holds_direct_suffix(name),
    ensures
        strip_all(name + direct_suffix(), direct_suffix()) == name,
    decreases name.len(),
{
    let d = direct_suffix();
    let s = name + d;
    if name.len() == 0 {
        assert(s =~= d);
        assert(s.subrange(0, d.len() as int) =~= d);
        assert(s.skip(d.len() as int) =~= Seq::<char>::empty());
        assert(strip_all(s, d) == strip_all(Seq::<char>::empty(), d));
        assert(name =~= Seq::<char>::empty());
    } else {
        assert(name.skip(0) =~= name);
        if has_prefix(s, d) {
            if name.len() >= d.len() {
                assert(s.subrange(0, d.len() as int) =~= name.skip(0).subrange(0, d.len() as int));
            } else {
                let n = name.len() as int;
                assert(s.subrange(0, d.len() as int)[n] == s[n]);
                assert(s[n] == d[0]);
                assert(s.subrange(0, d.len() as int)[n + 1] == s[n + 1]);
                assert(s[n + 1] == d[1]);
            }
        }
        let rest = name.skip(1);
        assert forall|i: int| 0 <= i <= rest.len() implies !has_prefix(#[trigger] rest.skip(i), d) by {
            assert(rest.skip(i) =~= name.skip(i + 1));
        }
        lemma_strip_appended_suffix(rest);
        assert(s.skip(1) =~= rest + d);
        assert(seq![name[0]] + rest =~= name);
    }
}

/// Asking for a name with the direct suffix appended, where the name holds
/// none, is answered with the real address of that name.
pub proof fn law_direct_lookup_finds_the_name(name: Seq<char>, route: SymbolRoute)
    requires
        !holds_direct_suffix(name),
    ensures
        route_of(name + direct_suffix(), route) <==> (route matches SymbolRoute::Direct { real_name }
            && real_name@ == name),
{
    let d = direct_suffix();
    let s = name + d;
    assert(s.subrange(s.len() - d.len(), s.len() as int) =~= d);
    lemma_strip_appended_suffix(name);
}

/// The `dlsym` hook answers each SDL2 function that the host replaces with
/// that function's hook, never passing it through.
pub proof fn law_hooked_functions_route_to_their_hooks(h: Sdl2Hook, route: SymbolRoute)
    ensures
        route_of(hooked_function(h), route) <==> route == SymbolRoute::Sdl2(h),
{
    reveal_hooked_names();
    law_each_hooked_function_gets_its_hook(h, hooked_function(h));
    let n = hooked_function(h);
    let d = direct_suffix();
    if has_suffix(n, d) {
        let k = n.len() - 2;
        assert(n.subrange(n.len() - d.len(), n.len() as int)[8] == n[k]);
    }
    assert(n != "_internal_rust_launch"@);
    assert(n != "glXSwapBuffers"@);
    assert(n != "glXSwapBuffersMscOML"@);
    assert(n != "glXGetProcAddress"@);
    assert(n != "glXGetProcAddressARB"@);
}

/// The address that `cache` holds for `name`: its first entry of that name.
pub open spec fn cached(entries: Seq<(Seq<char>, Pointer)>, name: Seq<char>) -> Option<Pointer>
    decreases entries.len(),
{
    if entries.len() == 0 {
        None
    } else if entries[0].0 == name {
        Some(entries[0].1)
    } else {
        cached(entries.drop_first(), name)
    }
}

/// The cache of real symbol addresses.
pub struct DlsymCache {
    pub entries: Vec<(String, Pointer)>,
}

impl DlsymCache {
    /// The entries, by name.
    pub open spec fn view_entries(&self) -> Seq<(Seq<char>, Pointer)> {
        self.entries@.map_values(|e: (String, Pointer)| (e.0@, e.1))
    }

    /// The address cached for `name`.
    pub open spec fn get_spec(&self, name: Seq<char>) -> Option<Pointer> {
        cached(self.view_entries(), name)
    }

    /// An empty cache.
    pub fn new() -> (r: Self)
        ensures
            forall|n: Seq<char>| #[trigger] r.get_spec(n) is None,
    {
        let r = DlsymCache { entries: Vec::new() };
        assert(r.view_entries() =~= Seq::<(Seq<char>, Pointer)>::empty());
        r
    }

    /// The position of the first entry named `name`, if any.
    fn position(&self, name: &str) -> (r: Option<usize>)
        ensures
            match r {
                Some(i) => i < self.entries@.len() && self.view_entries()[i as int].0 == name@
                    && (forall|j: int| 0 <= j < i ==> #[trigger] self.view_entries()[j].0 != name@),
                None => cached(self.view_entries(), name@) is None,
            },
    {
        let ghost v = self.view_entries();
        let mut i: usize = 0;
        assert(v.skip(0) =~= v);
        while i < self.entries.len()
            invariant
                i <= v.len(),
                v == self.view_entries(),
                v.len() == self.entries@.len(),
                cached(v, name@) == cached(v.skip(i as int), name@),
                forall|j: int| 0 <= j < i ==> #[trigger] v[j].0 != name@,
            decreases v.len() - i,
        {
            assert(v.skip(i as int)[0] == v[i as int]);
            if str_eq(self.entries[i].0.as_str(), name) {
                return Some(i);
            }
            assert(v.skip(i as int).drop_first() =~= v.skip(i + 1));
            i = i + 1;
        }
        assert(v.skip(i as int) =~= Seq::<(Seq<char>, Pointer)>::empty());
        None
    }

    /// The address cached for `name`, if any.
    pub fn get(&self, name: &str) -> (r: Option<Pointer>)
        ensures
            r == self.get_spec(name@),
    {
        match self.position(name) {
            Some(i) => {
                proof {
                    lemma_cached_first(self.view_entries(), i as int, name@);
                }
                Some(self.entries[i].1)
            },
            None => None,
        }
    }

    /// Whether an address is cached for `name`.
    pub fn contains_key(&self, name: &str) -> (r: bool)
        ensures
            r == self.get_spec(name@) is Some,
    {
        match self.position(name) {
            Some(i) => {
                proof {
                    lemma_cached_first(self.view_entries(), i as int, name@);
                }
                true
            },
            None => false,
        }
    }

    /// Caches `pointer` for `name`, replacing any address cached for it.
    pub fn insert(&mut self, name: &str, pointer: Pointer)
        ensures
            final(self).get_spec(name@) == Some(pointer),
            forall|n: Seq<char>| n != name@ ==> #[trigger] final(self).get_spec(n) == old(self).get_spec(n),
    {
        let ghost v0 = self.view_entries();
        match self.position(name) {
            Some(i) => {
                self.entries.set(i, (String::from_str(name), pointer));
                proof {
                    lemma_cached_update(v0, i as int, name@, pointer);
                }
                assert(self.view_entries() =~= v0.update(i as int, (name@, pointer)));
            },
            None => {
                self.entries.push((String::from_str(name), pointer));
                proof {
                    lemma_cached_push(v0, name@, pointer);
                }
                assert(self.view_entries() =~= v0.push((name@, pointer)));
            },
        }
    }
}

/// The first entry of a name gives its address.
pub proof fn lemma_cached_first(v: Seq<(Seq<char>, Pointer)>, i: int, name: Seq<char>)
    requires
        0 <= i < v.len(),
        v[i].0 == name,
        forall|j: int| 0 <= j < i ==> #[trigger] v[j].0 != name,
    ensures
        cached(v, name) == Some(v[i].1),
    decreases v.len(),
{
    if i > 0 {
        assert(v[0].0 != name);
        assert forall|j: int| 0 <= j < i - 1 implies #[trigger] v.drop_first()[j].0 != name by {
            assert(v[j + 1].0 != name);
        }
        lemma_cached_first(v.drop_first(), i - 1, name);
    }
}

/// Replacing the first entry of a name changes only that name's address.
pub proof fn lemma_cached_update(v: Seq<(Seq<char>, Pointer)>, i: int, name: Seq<char>, p: Pointer)
    requires
        0 <= i < v.len(),
        v[i].0 == name,
        forall|j: int| 0 <= j < i ==> #[trigger] v[j].0 != name,
    ensures
        cached(v.update(i, (name, p)), name) == Some(p),
        forall|n: Seq<char>| n != name ==> #[trigger] cached(v.update(i, (name, p)), n) == cached(v, n),
    decreases v.len(),
{
    let u = v.update(i, (name, p));
    if i > 0 {
        assert(v[0].0 != name);
        assert forall|j: int| 0 <= j < i - 1 implies #[trigger] v.drop_first()[j].0 != name by {
            assert(v[j + 1].0 != name);
        }
        lemma_cached_update(v.drop_first(), i - 1, name, p);
        assert(u.drop_first() =~= v.drop_first().update(i - 1, (name, p)));
        assert(u[0] == v[0]);
        assert forall|n: Seq<char>| n != name implies #[trigger] cached(u, n) == cached(v, n) by {
            if v[0].0 != n {
                assert(cached(u.drop_first(), n) == cached(v.drop_first(), n));
            }
        }
    } else {
        assert(u.drop_first() =~= v.drop_first());
        assert forall|n: Seq<char>| n != name implies #[trigger] cached(u, n) == cached(v, n) by {}
    }
}

/// Appending an entry for a name not held gives it that address, and no other name changes.
pub proof fn lemma_cached_push(v: Seq<(Seq<char>, Pointer)>, name: Seq<char>, p: Pointer)
    requires
        cached(v, name) is None,
    ensures
        cached(v.push((name, p)), name) == Some(p),
        forall|n: Seq<char>| n != name ==> #[trigger] cached(v.push((name, p)), n) == cached(v, n),
    decreases v.len(),
{
    let u = v.push((name, p));
    if v.len() > 0 {
        lemma_cached_push(v.drop_first(), name, p);
        assert(u.drop_first() =~= v.drop_first().push((name, p)));
        assert(u[0] == v[0]);
        assert forall|n: Seq<char>| n != name implies #[trigger] cached(u, n) == cached(v, n) by {
            if v[0].0 != n {
                assert(cached(u.drop_first(), n) == cached(v.drop_first(), n));
            }
        }
    } else {
        assert(u.drop_first() =~= Seq::<(Seq<char>, Pointer)>::empty());
        assert forall|n: Seq<char>| n != name implies #[trigger] cached(u, n) == cached(v, n) by {
            assert(cached(u.drop_first(), n) is None);
        }
    }
}

/// The address cached for a symbol, if any.
pub fn query_dlsym_cache(cache: &DlsymCache, symbol_name: &str) -> (r: Option<Pointer>)
    ensures
        r == cache.get_spec(symbol_name@),
{
    cache.get(symbol_name)
}

} // verus!
