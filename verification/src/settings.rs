//! Reading the host's settings from environment values, and the identifiers
//! and paths of a session.
use vstd::prelude::*;
use vstd::string::{StrSliceExecFns, StringExecFns};
use rand::Rng;
use crate::text::{decimal, digit_char, has_prefix, starts_with, str_eq};

verus! {

/// The boolean that a setting's text stands for: `true`/`1`/`yes` and
/// `false`/`0`/`no`; any other text, or no setting, gives `default`.
pub open spec fn setting_bool(value: Option<Seq<char>>, default: bool) -> bool {
    match value {
        Some(v) => if v == "true"@ || v == "1"@ || v == "yes"@ {
            true
        } else if v == "false"@ || v == "0"@ || v == "no"@ {
            false
        } else {
            default
        },
        None => default,
    }
}

/// The view of an optional setting.
pub open spec fn opt_view(value: Option<&str>) -> Option<Seq<char>> {
    match value {
        Some(v) => Some(v@),
        None => None,
    }
}

/// The boolean that a setting's text (`None` where it is not set) stands for.
pub fn booleanify(value: Option<&str>, default: bool) -> (r: bool)
    ensures
        r == setting_bool(opt_view(value), default),
{
    match value {
        Some(v) => {
            if str_eq(v, "true") || str_eq(v, "1") || str_eq(v, "yes") {
                true
            } else if str_eq(v, "false") || str_eq(v, "0") || str_eq(v, "no") {
                false
            } else {
                default
            }
        },
        None => default,
    }
}

/// Whether `c` is an ASCII digit.
pub open spec fn is_digit(c: char) -> bool {
    '0' <= c && c <= '9'
}

/// The value of a string of ASCII digits.
pub open spec fn digits_value(d: Seq<char>) -> nat
    decreases d.len(),
{
    if d.len() == 0 {
        0
    } else {
        digits_value(d.drop_last()) * 10 + ((d.last() as u32) - ('0' as u32)) as nat
    }
}

/// A non-empty string of ASCII digits.
pub open spec fn all_digits(d: Seq<char>) -> bool {
    d.len() > 0 && forall|i: int| 0 <= i < d.len() ==> is_digit(#[trigger] d[i])
}

/// What Rust's decimal parsing gives for an unsigned 32-bit number: an
/// optional `+`, then one or more digits, whose value fits.
pub open spec fn parsed_u32(s: Seq<char>) -> Option<u32> {
    let d = if s.len() > 0 && s[0] == '+' { s.skip(1) } else { s };
    if all_digits(d) && digits_value(d) <= u32::MAX {
        Some(digits_value(d) as u32)
    } else {
        None
    }
}

/// What Rust's decimal parsing gives for a signed 32-bit number: an optional
/// `+` or `-`, then one or more digits, whose signed value fits.
pub open spec fn parsed_i32(s: Seq<char>) -> Option<i32> {
    if s.len() > 0 && s[0] == '-' {
        let d = s.skip(1);
        if all_digits(d) && digits_value(d) <= 0x8000_0000 {
            Some((-(digits_value(d) as int)) as i32)
        } else {
            None
        }
    } else {
        let d = if s.len() > 0 && s[0] == '+' { s.skip(1) } else { s };
        if all_digits(d) && digits_value(d) <= i32::MAX {
            Some(digits_value(d) as i32)
        } else {
            None
        }
    }
}

/// The value of the digits of `s` from position `start`, where they are all
/// digits, none of them missing, and the value does not exceed `limit`.
fn digits_upto(s: &str, start: usize, limit: u64) -> (r: Option<u64>)
    requires
        start <= s@.len(),
        limit <= u32::MAX + 1,
    ensures
        r == (if all_digits(s@.skip(start as int)) && digits_value(s@.skip(start as int)) <= limit {
            Some(digits_value(s@.skip(start as int)) as u64)
        } else {
            None::<u64>
        }),
{
    let n = s.unicode_len();
    if start >= n {
        return None;
    }
    let ghost d = s@.skip(start as int);
    let mut value: u64 = 0;
    let mut i: usize = start;
    while i < n
        invariant
            n == s@.len(),
            start <= i <= n,
            d == s@.skip(start as int),
            limit <= u32::MAX + 1,
            forall|k: int| start <= k < i ==> is_digit(s@[k]),
            value == digits_value(d.take(i - start)),
            value <= limit,
        decreases n - i,
    {
        let c = s.get_char(i);
        assert(d.take(i + 1 - start).drop_last() =~= d.take(i - start));
        assert(d.take(i + 1 - start).last() == c);
        if !('0' <= c && c <= '9') {
            assert(!is_digit(d[i - start]));
            return None;
        }
        let digit = ((c as u32) - ('0' as u32)) as u64;
        let next = value * 10 + digit;
        if next > limit {
            proof {
                if all_digits(d) {
                    lemma_digits_grow(d, (i + 1 - start) as int);
                }
            }
            return None;
        }
        value = next;
        i = i + 1;
    }
    assert(d.take(n - start) =~= d);
    assert forall|k: int| 0 <= k < d.len() implies is_digit(#[trigger] d[k]) by {
        assert(d[k] == s@[start + k]);
    }
    Some(value)
}

/// The decimal text of a number is a string of digits whose value is the number.
pub proof fn lemma_decimal_digits(n: nat)
    ensures
        all_digits(decimal(n)),
        digits_value(decimal(n)) == n,
    decreases n,
{
    let c = digit_char(n % 10);
    assert(is_digit(c) && (c as u32) - ('0' as u32) == n % 10);
    if n >= 10 {
        lemma_decimal_digits(n / 10);
        let d = decimal(n / 10);
        assert(decimal(n).drop_last() =~= d);
        assert(decimal(n).last() == c);
        assert forall|i: int| 0 <= i < decimal(n).len() implies is_digit(#[trigger] decimal(n)[i]) by {
            if i < d.len() {
                assert(decimal(n)[i] == d[i]);
            }
        }
        assert(n == (n / 10) * 10 + n % 10) by (nonlinear_arith);
        assert(digits_value(decimal(n)) == digits_value(d) * 10 + n % 10);
    } else {
        assert(decimal(n).drop_last() =~= Seq::<char>::empty());
        assert(n % 10 == n);
        assert(digits_value(decimal(n)) == digits_value(Seq::<char>::empty()) * 10 + n % 10);
    }
}

/// A number written out in decimal reads back, as a setting, as that number.
pub proof fn law_decimal_reads_back(n: u32)
    ensures
        parsed_u32(decimal(n as nat)) == Some(n),
        parsed_i32(decimal(n as nat)) == (if n <= i32::MAX { Some(n as i32) } else { None }),
{
    lemma_decimal_digits(n as nat);
    let s = decimal(n as nat);
    assert(is_digit(s[0]));
}

/// A string of digits is worth at least as much as any of its prefixes.
pub proof fn lemma_digits_grow(d: Seq<char>, k: int)
    requires
        0 <= k <= d.len(),
        all_digits(d),
    ensures
        digits_value(d.take(k)) <= digits_value(d),
    decreases d.len() - k,
{
    if k < d.len() {
        lemma_digits_grow(d, k + 1);
        assert(d.take(k + 1).drop_last() =~= d.take(k));
        assert(is_digit(d.take(k + 1).last()));
    } else {
        assert(d.take(k) =~= d);
    }
}

/// Parses an unsigned 32-bit decimal number as Rust's `str::parse` does.
pub fn parse_u32(s: &str) -> (r: Option<u32>)
    ensures
        r == parsed_u32(s@),
{
    let n = s.unicode_len();
    let start: usize = if n > 0 && s.get_char(0) == '+' { 1 } else { 0 };
    assert(s@.skip(0) =~= s@);
    match digits_upto(s, start, 0xFFFF_FFFF) {
        Some(v) => Some(v as u32),
        None => None,
    }
}

/// Parses a signed 32-bit decimal number as Rust's `str::parse` does.
pub fn parse_i32(s: &str) -> (r: Option<i32>)
    ensures
        r == parsed_i32(s@),
{
    let n = s.unicode_len();
    assert(s@.skip(0) =~= s@);
    if n > 0 && s.get_char(0) == '-' {
        match digits_upto(s, 1, 0x8000_0000) {
            Some(v) => Some((0i64 - (v as i64)) as i32),
            None => None,
        }
    } else {
        let start: usize = if n > 0 && s.get_char(0) == '+' { 1 } else { 0 };
        match digits_upto(s, start, 0x7FFF_FFFF) {
            Some(v) => Some(v as i32),
            None => None,
        }
    }
}

/// A setting read as an unsigned number; `None` where it is unset or does not parse.
pub fn try_get_u32(value: Option<&str>) -> (r: Option<u32>)
    ensures
        r == (match opt_view(value) {
            Some(v) => parsed_u32(v),
            None => None,
        }),
{
    match value {
        Some(v) => parse_u32(v),
        None => None,
    }
}

/// A setting read as a signed number, or `default` where it is unset or does not parse.
pub fn intify(value: Option<&str>, default: i32) -> (r: i32)
    ensures
        r == (match opt_view(value) {
            Some(v) => match parsed_i32(v) {
                Some(x) => x,
                None => default,
            },
            None => default,
        }),
{
    match value {
        Some(v) => match parse_i32(v) {
            Some(x) => x,
            None => default,
        },
        None => default,
    }
}

/// A setting read as an unsigned number, or `default` where it is unset or does not parse.
pub fn u_intify(value: Option<&str>, default: u32) -> (r: u32)
    ensures
        r == (match opt_view(value) {
            Some(v) => match parsed_u32(v) {
                Some(x) => x,
                None => default,
            },
            None => default,
        }),
{
    match value {
        Some(v) => match parse_u32(v) {
            Some(x) => x,
            None => default,
        },
        None => default,
    }
}

/// Whether `c` is an ASCII letter or digit.
pub open spec fn is_ascii_alphanumeric(c: char) -> bool {
    ('0' <= c && c <= '9') || ('a' <= c && c <= 'z') || ('A' <= c && c <= 'Z')
}

/// `len` characters drawn by `rand::thread_rng()` from
/// `rand::distributions::Alphanumeric`.
/// Trusted: the rand crate documents that `Alphanumeric` samples ASCII letters
/// and digits, and `take(len)` keeps `len` of them; nothing is said of which.
#[verifier::external_body]
fn random_alphanumeric(len: usize) -> (r: String)
    ensures
        r@.len() == len,
        forall|i: int| 0 <= i < len ==> is_ascii_alphanumeric(#[trigger] r@[i]),
{
    rand::thread_rng().sample_iter(&rand::distributions::Alphanumeric).take(len).map(char::from).collect()
}

/// The length of a random session or user identifier.
pub const RANDOM_ID_LEN: usize = 10;

/// A random session or user identifier: ten random ASCII letters and digits.
pub fn generate_random_id() -> (r: String)
    ensures
        r@.len() == 10,
        forall|i: int| 0 <= i < 10 ==> is_ascii_alphanumeric(#[trigger] r@[i]),
{
    random_alphanumeric(RANDOM_ID_LEN)
}

/// The control socket path of a session: `/tmp/hw-<session>.sock`.
pub fn get_unix_socket_path(session_id: &str) -> (r: String)
    ensures
        r@ == "/tmp/hw-"@ + session_id@ + ".sock"@,
{
    let mut p = String::from_str("/tmp/hw-");
    p.append(session_id);
    p.append(".sock");
    p
}

/// The environment values the host's configuration is read from, each `None`
/// where the variable is unset. `socket_addr` holds `SOCKET_ADDR` only where it
/// parses as a socket address.
pub struct EnvSettings {
    pub enable_x11: Option<String>,
    pub enable_gl: Option<String>,
    pub enable_glx: Option<String>,
    pub enable_glfw: Option<String>,
    pub enable_sdl2: Option<String>,
    pub debug_hw: Option<String>,
    pub tracing_hw: Option<String>,
    pub window_width: Option<String>,
    pub window_height: Option<String>,
    pub window_zero_origin: Option<String>,
    pub connection_type: Option<String>,
    pub hw_session_id: Option<String>,
    pub hw_user_id: Option<String>,
    pub hw_socket_path: Option<String>,
    pub capture_mode: Option<String>,
    pub socket_addr: Option<String>,
    pub socket_type: Option<String>,
}

/// The host's configuration.
pub struct Config {
    pub enable_x11: bool,
    pub enable_gl: bool,
    pub enable_glfw: bool,
    pub enable_glx: bool,
    pub enable_sdl2: bool,
    pub debug_mode: bool,
    pub tracing_mode: bool,
    pub capture_mode: bool,
    pub window_width_override: Option<u32>,
    pub window_height_override: Option<u32>,
    pub window_zero_origin: bool,
    pub connection_type: String,
    pub connection_timeout: Option<u32>,
    pub session_id: String,
    pub user_id: String,
    pub unix_socket_path: Option<String>,
    /// The bind address, as text that parses as a socket address.
    pub bind_addr: Option<String>,
    pub bind_type: Option<String>,
}

/// The view of an optional owned setting.
pub open spec fn opt_string_view(value: Option<String>) -> Option<Seq<char>> {
    match value {
        Some(v) => Some(v@),
        None => None,
    }
}

fn opt_str(value: &Option<String>) -> (r: Option<&str>)
    ensures
        opt_view(r) == opt_string_view(*value),
{
    match value {
        Some(v) => Some(v.as_str()),
        None => None,
    }
}

fn opt_clone(value: &Option<String>) -> (r: Option<String>)
    ensures
        opt_string_view(r) == opt_string_view(*value),
{
    match value {
        Some(v) => Some(String::from_str(v.as_str())),
        None => None,
    }
}

/// A setting as text, or `default` where unset.
pub open spec fn setting_text(value: Option<Seq<char>>, default: Seq<char>) -> Seq<char> {
    match value {
        Some(v) => v,
        None => default,
    }
}

/// A setting read as an unsigned number; `None` where unset or unparsable.
pub open spec fn setting_u32(value: Option<Seq<char>>) -> Option<u32> {
    match value {
        Some(v) => parsed_u32(v),
        None => None,
    }
}

impl Config {
    /// The configuration that environment values give, with `random_session_id`
    /// and `random_user_id` standing in for unset identifiers.
    pub fn from_env_settings(env: &EnvSettings, random_session_id: String, random_user_id: String) -> (r: Config)
        ensures
            r.enable_x11 == setting_bool(opt_string_view(env.enable_x11), true),
            r.enable_gl == setting_bool(opt_string_view(env.enable_gl), true),
            r.enable_glx == setting_bool(opt_string_view(env.enable_glx), true),
            r.enable_glfw == setting_bool(opt_string_view(env.enable_glfw), true),
            r.enable_sdl2 == setting_bool(opt_string_view(env.enable_sdl2), true),
            r.debug_mode == setting_bool(opt_string_view(env.debug_hw), false),
            r.tracing_mode == setting_bool(opt_string_view(env.tracing_hw), false),
            r.window_width_override == setting_u32(opt_string_view(env.window_width)),
            r.window_height_override == setting_u32(opt_string_view(env.window_height)),
            r.window_zero_origin == setting_bool(opt_string_view(env.window_zero_origin), false),
            r.connection_timeout is None,
            r.connection_type@ == setting_text(opt_string_view(env.connection_type), "null"@),
            r.session_id@ == setting_text(opt_string_view(env.hw_session_id), random_session_id@),
            r.user_id@ == setting_text(opt_string_view(env.hw_user_id), random_user_id@),
            opt_string_view(r.unix_socket_path) == Some(setting_text(
                opt_string_view(env.hw_socket_path),
                "/tmp/hw-"@ + r.session_id@ + ".sock"@,
            )),
            r.capture_mode == setting_bool(opt_string_view(env.capture_mode), false),
            opt_string_view(r.bind_addr) == opt_string_view(env.socket_addr),
            opt_string_view(r.bind_type) == opt_string_view(env.socket_type),
    {
        let sid = match &env.hw_session_id {
            Some(v) => String::from_str(v.as_str()),
            None => random_session_id,
        };
        let uid = match &env.hw_user_id {
            Some(v) => String::from_str(v.as_str()),
            None => random_user_id,
        };
        let socket_path = match &env.hw_socket_path {
            Some(v) => String::from_str(v.as_str()),
            None => get_unix_socket_path(sid.as_str()),
        };
        let connection_type = match &env.connection_type {
            Some(v) => String::from_str(v.as_str()),
            None => String::from_str("null"),
        };
        Config {
            enable_x11: booleanify(opt_str(&env.enable_x11), true),
            enable_gl: booleanify(opt_str(&env.enable_gl), true),
            enable_glx: booleanify(opt_str(&env.enable_glx), true),
            enable_glfw: booleanify(opt_str(&env.enable_glfw), true),
            enable_sdl2: booleanify(opt_str(&env.enable_sdl2), true),
            debug_mode: booleanify(opt_str(&env.debug_hw), false),
            tracing_mode: booleanify(opt_str(&env.tracing_hw), false),
            window_width_override: try_get_u32(opt_str(&env.window_width)),
            window_height_override: try_get_u32(opt_str(&env.window_height)),
            window_zero_origin: booleanify(opt_str(&env.window_zero_origin), false),
            connection_timeout: None,
            connection_type,
            session_id: sid,
            user_id: uid,
            unix_socket_path: Some(socket_path),
            capture_mode: booleanify(opt_str(&env.capture_mode), false),
            bind_addr: opt_clone(&env.socket_addr),
            bind_type: opt_clone(&env.socket_type),
        }
    }
}

impl Default for Config {
    /// Everything enabled, no debugging or capture, random identifiers, the
    /// session's default socket path, and the null connection.
    fn default() -> (r: Config)
        ensures
            r.enable_x11 && r.enable_gl && r.enable_glx && r.enable_glfw && r.enable_sdl2,
            !r.debug_mode && !r.tracing_mode && !r.capture_mode && !r.window_zero_origin,
            r.window_width_override is None && r.window_height_override is None,
            r.connection_type@ == "null"@,
            r.connection_timeout is None,
            r.session_id@.len() == 10,
            r.user_id@.len() == 10,
            opt_string_view(r.unix_socket_path) == Some("/tmp/hw-"@ + r.session_id@ + ".sock"@),
            r.bind_addr is None && r.bind_type is None,
    {
        let sid = generate_random_id();
        let uid = generate_random_id();
        let socket_path = get_unix_socket_path(sid.as_str());
        Config {
            enable_x11: true,
            enable_gl: true,
            enable_glx: true,
            enable_glfw: true,
            enable_sdl2: true,
            debug_mode: false,
            tracing_mode: false,
            window_width_override: None,
            window_height_override: None,
            window_zero_origin: false,
            connection_type: String::from_str("null"),
            connection_timeout: None,
            session_id: sid,
            user_id: uid,
            unix_socket_path: Some(socket_path),
            capture_mode: false,
            bind_addr: None,
            bind_type: None,
        }
    }
}

/// Whether a configuration asks for a Unix-socket connection (its connection
/// type begins with `unix`); a streamer on the same machine warns otherwise.
pub fn is_unix_connection(config: &Config) -> (r: bool)
    ensures
        r == has_prefix(config.connection_type@, "unix"@),
{
    starts_with(config.connection_type.as_str(), "unix")
}

} // verus!
