[package]
name = "msx_emulator"
version = "0.1.0"
edition = "2021"
publish = false

[dependencies]
anyhow = "1"
axum = { version = "0.6", features = ["ws", "macros"] }
clap = { version = "4", features = ["derive"] }
futures = "0.3"
log = "0.4"
rustyline = "12"
sdl2 = "0.35"
serde = { version = "1", features = ["derive"] }
serde_json = "1"
tokio = { version = "1", features = ["full"] }
tracing = "0.1"
tracing-subscriber = { version = "0.3", features = ["env-filter"] }
twox-hash = "1.6"
walkdir = "2"
xml-rs = "0.8"
