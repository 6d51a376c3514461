[package]
name = "xelis"
version = "0.1.0"
edition = "2021"
publish = false

[dependencies]
chacha20poly1305 = "0.10"
blake3 = "1"
anyhow = "1"
serde = { version = "1", features = ["derive"] }
serde_json = "1"
clap = { version = "4", features = ["derive"] }
tokio = { version = "1", features = ["rt", "macros", "sync", "time", "net", "io-util"] }
tokio-tungstenite = "0.21"
futures-util = { version = "0.3", features = ["sink"] }
log = "0.4"
lazy_static = "1"
