[package]
name = "hyperwarp"
version = "0.1.0"
edition = "2021"
publish = false

[dependencies]
uuid = { version = "=1.29.0", features = ["v4"] }
rand = "=0.8.8"
bytemuck = "=1.25.2"
serde = { version = "=1.0.229", features = ["derive"] }
serde_repr = "=0.1.21"
bincode = "=1.3.3"
serde_json = "=1.0.154"
strum = { version = "=0.26.3", features = ["derive"] }
strum_macros = "=0.26.4"
sdl2-sys = "=0.37.0"
crossbeam-queue = "0.3"
