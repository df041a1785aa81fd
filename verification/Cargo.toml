[package]
name = "muxdeck"
version = "0.1.0"
edition = "2021"
publish = false

[dependencies]
sha2 = "0.10"
base64 = "0.22"
ed25519-dalek = "2"
getrandom = "0.3"
serde = { version = "1", features = ["derive"] }
serde_json = "1"
tokio = { version = "1", features = ["rt-multi-thread", "macros", "net", "signal", "time", "sync", "process"] }
axum = { version = "0.8", features = ["ws"] }
axum-server = { version = "0.7", default-features = false, features = ["tls-rustls-no-provider"] }
rustls = { version = "0.23", default-features = false, features = ["ring", "std", "tls12", "logging"] }
tokio-tungstenite = { version = "0.26", default-features = false, features = ["connect", "handshake", "__rustls-tls"] }
futures-util = "0.3"
rcgen = "0.13"
time = "0.3"
if-addrs = "0.13"
directories = "6"
mdns-sd = "*"
sysinfo = "*"
tracing = "0.1"
thiserror = "2"
evdev = "*"
