[package]
name = "t2v"
version = "0.1.0"
edition = "2021"
publish = false

[dependencies]
nusb = { version = "0.2", features = ["tokio"] }
tokio = { version = "1", features = ["io-util", "macros", "rt", "rt-multi-thread"] }
async-std = { version = "1", features = ["attributes"] }
futures = "0.3"
futures-lite = "2"
log = "0.4"
pretty_env_logger = "0.5"
clap = { version = "4", features = ["derive", "env"] }
serde = { version = "1", features = ["derive"] }
serde_json = "1"
tempfile = "3"
sd-notify = "0.4"
systemd-journal-logger = "2"
