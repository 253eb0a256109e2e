[package]
name = "codex_session_control"
version = "0.1.0"
edition = "2021"
publish = false

[dependencies]
clap = { version = "4", features = ["derive"] }
futures-util = { version = "0.3", features = ["sink"] }
hex = "0.4"
rustix = { version = "1", features = ["fs", "process"] }
schemars = "1"
semver = "1"
serde = { version = "1", features = ["derive"] }
serde_json = "1"
sha2 = "0.10"
thiserror = "2"
tokio = { version = "1", features = ["net", "process", "time", "rt", "macros", "io-util", "sync"] }
tokio-tungstenite = "*"
