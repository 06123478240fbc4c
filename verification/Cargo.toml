[package]
name = "nexum"
version = "0.1.0"
edition = "2021"
publish = false

[dependencies]
rcgen = "0.13"
rusqlite = { version = "*", features = ["bundled"] }
serde = { version = "1", features = ["derive"] }
serde_json = "1"
serde_yaml = "0.9"
sha2 = "0.10"
thiserror = "1"
time = "0.3"
tokio = { version = "1", features = ["rt", "rt-multi-thread", "net", "io-util", "sync", "time", "macros", "signal"] }
toml = "0.8"
