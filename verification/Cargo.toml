[package]
name = "gossip_chat"
version = "0.1.0"
edition = "2021"
publish = false

[dependencies]
libp2p = { version = "=0.57.1", features = ["gossipsub", "mdns", "tcp", "noise", "yamux", "tokio", "macros"] }
cursive = { version = "=0.21.1", default-features = false, features = ["crossterm-backend"] }
serde = { version = "=1.0.229", features = ["derive"] }
serde_json = "=1.0.154"
tokio = { version = "=1.54.1", features = ["rt-multi-thread", "sync", "io-std", "io-util"] }
futures = "=0.3.34"
