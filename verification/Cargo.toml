[package]
name = "virex"
version = "0.1.0"
edition = "2021"
publish = false

[dependencies]
anyhow = "1"
arboard = "3"
dirs = "5"
dotenvy = "0.15"
enigo = "0.2"
eventsource-stream = "0.2"
futures-util = "0.3"
keyring = "3"
log = "0.4"
reqwest = { version = "0.12", default-features = false, features = ["json", "stream", "rustls-tls"] }
serde = { version = "1", features = ["derive"] }
serde_json = "1"
thiserror = "2"
tokio = { version = "1", features = ["rt-multi-thread", "macros", "sync", "time"] }
toml = "0.8"
