[package]
name = "any_player"
version = "0.1.0"
edition = "2021"
publish = false

[dependencies]
rand = "0.8"
url = "2"
dirs = "5"
serde = { version = "1", features = ["derive"] }
serde_json = "1"
toml = "0.8"
uuid = { version = "1", features = ["v4"] }
chrono = "0.4"
rusqlite = { version = "0.31", features = ["bundled"] }
keyring = "3"
tokio = { version = "1", features = ["fs", "rt-multi-thread", "macros", "sync", "time"] }
anyhow = "1"
tracing = "0.1"
