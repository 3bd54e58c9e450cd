//! Verified core of the Hyperwarp application-capture system: the wire
//! protocol's plain data, key-code tables, the input manager's state machine,
//! host bookkeeping, symbol routing and the streamer's decisions.
#![allow(non_snake_case)]
#![allow(non_camel_case_types)]

pub mod text;
pub mod keymap;
pub mod protocol;
pub mod input;
pub mod streamer;
pub mod host;
pub mod symbols;
pub mod settings;
pub mod connection;
pub mod laws_input;
pub mod control;
pub mod session;
pub mod peers;
pub mod client;
pub mod dynapi;
pub mod encoder;
