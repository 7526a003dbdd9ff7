[package]
name = "opencode-voice"
version = "0.1.0"
edition = "2021"
publish = false

[dependencies]
anyhow = "1"
base64 = "0.22"
clap = { version = "4", features = ["derive"] }
crossterm = { version = "0.28", default-features = false, features = ["events"] }
dirs = "5"
evdev = "0.12"
futures = "0.3"
hound = "3"
indicatif = "0.17"
reqwest = { version = "0.12", default-features = false, features = ["json", "stream", "rustls-tls"] }
serde = { version = "1", features = ["derive"] }
serde_json = "1"
tokio = { version = "1", features = ["rt-multi-thread", "macros", "sync", "time", "signal", "fs", "io-util", "io-std"] }
tokio-util = "0.7"
uuid = { version = "1", features = ["v4"] }

[dev-dependencies]
serde_json = "1"
base64 = "0.22"
