[package]
name = "spotifm"
version = "0.1.0"
edition = "2021"
publish = false

[dependencies]
rustbreak = { version = "=2.0.0", features = ["ron_enc"] }
rand = "=0.8.8"
serde = { version = "1", features = ["derive"] }
serde_json = "1"
signal-hook = "0.3"
chrono = "0.4"
tokio = { version = "1", features = ["rt-multi-thread", "macros", "time"] }
actix-web = "=3.3.3"
actix-rt = "=1.1.1"
rspotify = "=0.12.0"
librespot = { version = "=0.4.2", default-features = false }
