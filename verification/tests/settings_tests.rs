use hyperwarp::settings::{
    booleanify, generate_random_id, get_unix_socket_path, intify, parse_i32, parse_u32, try_get_u32, u_intify, Config,
    EnvSettings,
};

fn empty_env() -> EnvSettings {
    EnvSettings {
        enable_x11: None,
        enable_gl: None,
        enable_glx: None,
        enable_glfw: None,
        enable_sdl2: None,
        debug_hw: None,
        tracing_hw: None,
        window_width: None,
        window_height: None,
        window_zero_origin: None,
        connection_type: None,
        hw_session_id: None,
        hw_user_id: None,
        hw_socket_path: None,
        capture_mode: None,
        socket_addr: None,
        socket_type: None,
    }
}

#[test]
fn boolean_settings() {
    for t in ["true", "1", "yes"] {
        assert!(booleanify(Some(t), false));
    }
    for f in ["false", "0", "no"] {
        assert!(!booleanify(Some(f), true));
    }
    assert!(booleanify(Some("TRUE"), true));
    assert!(!booleanify(Some("TRUE"), false));
    assert!(booleanify(None, true));
}

#[test]
fn number_parsing_matches_std() {
    for s in ["0", "42", "+7", "4294967295", "4294967296", "", "+", "-1", "12a", " 1", "007"] {
        assert_eq!(parse_u32(s), s.parse::<u32>().ok(), "{}", s);
    }
    for s in ["0", "-0", "-2147483648", "2147483647", "2147483648", "-2147483649", "+5", "-", "--1", "x"] {
        assert_eq!(parse_i32(s), s.parse::<i32>().ok(), "{}", s);
    }
}

#[test]
fn numeric_settings() {
    assert_eq!(try_get_u32(Some("640")), Some(640));
    assert_eq!(try_get_u32(Some("wide")), None);
    assert_eq!(try_get_u32(None), None);
    assert_eq!(intify(Some("-3"), 9), -3);
    assert_eq!(intify(Some("x"), 9), 9);
    assert_eq!(u_intify(Some("3"), 9), 3);
    assert_eq!(u_intify(None, 9), 9);
}

#[test]
fn random_ids() {
    let a = generate_random_id();
    let b = generate_random_id();
    assert_eq!(a.len(), 10);
    assert!(a.chars().all(|c| c.is_ascii_alphanumeric()));
    assert_ne!(a, b);
}

#[test]
fn configuration_from_environment() {
    let mut env = empty_env();
    let c = Config::from_env_settings(&env, "sess".to_string(), "user".to_string());
    assert!(c.enable_x11 && c.enable_gl && c.enable_glx && c.enable_glfw && c.enable_sdl2);
    assert!(!c.debug_mode && !c.tracing_mode && !c.capture_mode && !c.window_zero_origin);
    assert_eq!(c.session_id, "sess");
    assert_eq!(c.user_id, "user");
    assert_eq!(c.unix_socket_path.as_deref(), Some("/tmp/hw-sess.sock"));
    assert_eq!(c.connection_type, "null");
    env.enable_gl = Some("no".to_string());
    env.debug_hw = Some("1".to_string());
    env.window_width = Some("800".to_string());
    env.window_height = Some("tall".to_string());
    env.hw_session_id = Some("fixed".to_string());
    env.socket_type = Some("udp".to_string());
    let c = Config::from_env_settings(&env, "sess".to_string(), "user".to_string());
    assert!(!c.enable_gl && c.debug_mode);
    assert_eq!(c.window_width_override, Some(800));
    assert_eq!(c.window_height_override, None);
    assert_eq!(c.unix_socket_path.as_deref(), Some("/tmp/hw-fixed.sock"));
    assert_eq!(c.bind_type.as_deref(), Some("udp"));
    assert_eq!(get_unix_socket_path("x"), "/tmp/hw-x.sock");
}

#[test]
fn default_configuration() {
    let c = Config::default();
    assert_eq!(c.session_id.len(), 10);
    assert_eq!(c.unix_socket_path.unwrap(), format!("/tmp/hw-{}.sock", c.session_id));
    assert_eq!(c.connection_type, "null");
    assert!(c.bind_addr.is_none());
}

#[test]
fn unix_connections() {
    let mut c = hyperwarp::settings::Config::default();
    c.connection_type = "unix_socket".to_string();
    assert!(hyperwarp::settings::is_unix_connection(&c));
    c.connection_type = "null".to_string();
    assert!(!hyperwarp::settings::is_unix_connection(&c));
}
