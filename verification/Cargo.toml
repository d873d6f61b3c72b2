[package]
name = "creditbar"
version = "0.1.0"
edition = "2021"
publish = false

[dependencies]
anyhow = "=1.0.104"
chrono = "=0.4.45"
keyring = { version = "=3.6.3", features = ["apple-native"] }
log = "=0.4.35"
env_logger = "=0.11.11"
once_cell = "=1.21.4"
reqwest = { version = "=0.12.28", default-features = false, features = ["json", "rustls-tls"] }
serde = { version = "=1.0.229", features = ["derive"] }
serde_json = "=1.0.154"
tokio = { version = "=1.54.1", features = ["time", "rt", "macros"] }
resvg = "=0.49.0"
usvg = "=0.49.0"
tiny-skia = "=0.12.0"
