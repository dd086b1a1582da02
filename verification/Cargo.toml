[package]
name = "termusiclib"
version = "0.1.0"
edition = "2021"
publish = false

[dependencies]
anyhow = "=1.0.104"
axum = "=0.7.9"
base64 = "=0.22.1"
bytes = "=1.12.1"
clap = { version = "=4.6.7", features = ["derive", "env"] }
futures-util = "=0.3.34"
id3 = "=1.17.2"
image = { version = "=0.25.10", default-features = false, features = ["png", "jpeg"] }
lofty = "=0.25.4"
regex = "=1.13.1"
reqwest = { version = "=0.12.28", default-features = false, features = ["rustls-tls"] }
serde = { version = "=1.0.229", features = ["derive"] }
serde_json = "=1.0.154"
shell-words = "=1.1.1"
tokio = { version = "=1.54.1", features = ["fs", "rt", "rt-multi-thread", "macros", "io-util"] }
tower-http = { version = "=0.6.11", features = ["cors"] }
walkdir = "=2.5.0"
ytd-rs = "=0.1.7"
