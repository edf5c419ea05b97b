[package]
name = "live_status"
version = "0.1.0"
edition = "2021"
publish = false

[dependencies]
regex = "=1.13.1"
serde = { version = "=1.0.229", features = ["derive"] }
serde_yaml = "=0.9.34"
axum = "=0.7.9"
tokio = { version = "=1.54.1", features = ["macros", "rt-multi-thread", "net", "sync", "time"] }
log = "=0.4.34"
flexi_logger = "=0.31.10"
fs2 = "=0.4.3"
reqwest = { version = "=0.12.28", default-features = false, features = ["json"] }
active-win-pos-rs = "=0.8.4"
