[package]
name = "discord_rpc"
version = "0.1.0"
edition = "2021"
publish = false

[dependencies]
bincode = "1"
futures = "0.3"
serde = { version = "1", features = ["derive"] }
serde_json = "1"
thiserror = "1"
tokio = { version = "1", features = ["net", "io-util", "rt", "rt-multi-thread", "sync", "macros"] }
uuid = { version = "1", features = ["v4"] }
window-shadows = "0.2"
window-vibrancy = "0.4"
