[package]
name = "ovsy"
version = "0.1.0"
edition = "2021"
publish = false

[dependencies]
serde_json = "=1.0.154"
toml = "=1.1.8"
regex = "=1.13.1"
tiktoken-rs = "=0.12.1"
serde = { version = "=1.0.229", features = ["derive"] }
tokio = { version = "=1.54.1", features = ["full"] }
axum = "=0.8.9"
reqwest = { version = "=0.13.5", default-features = false, features = ["json", "stream"] }
futures = "=0.3.34"
bytes = "=1.12.1"
chrono = "=0.4.45"
clap = { version = "=4.6.7", features = ["derive"] }
libc = "=0.2.191"
atoman = "=0.12.1"
macron = "=0.5.2"
fuzzy-cmp = "=0.1.3"
lm-studio-api = "=0.1.5"
pc-remote = "=0.1.1"
tokio-serial = "=5.5.0"
