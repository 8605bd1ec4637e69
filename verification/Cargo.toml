[package]
name = "lark_codex_bridge"
version = "0.1.0"
edition = "2021"
publish = false

[dependencies]
anyhow = "1"
bytes = "1"
clap = { version = "4", features = ["derive"] }
futures-util = "0.3"
libc = "0.2"
nix = { version = "0.30", features = ["process", "signal"] }
process-wrap = { version = "8", features = ["tokio1"] }
secrecy = "0.10"
semver = "1"
serde = { version = "1", features = ["derive"] }
serde_json = "1"
sha2 = "0.10"
thiserror = "2"
tokio = { version = "1", features = ["io-util", "macros", "net", "process", "rt-multi-thread", "signal", "sync", "time"] }
tokio-tungstenite = "0.26"
tokio-util = { version = "0.7", features = ["codec", "rt"] }
tracing = "0.1"
url = "2"
uuid = { version = "1", features = ["v4"] }
