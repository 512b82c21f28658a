[package]
name = "p2p_chat"
version = "0.1.0"
edition = "2021"
publish = false

[dependencies]
anyhow = "1"
bincode = { version = "2", features = ["serde"] }
clap = { version = "4", features = ["derive"] }
env_logger = "0.11"
libp2p = { version = "0.55", features = ["gossipsub", "macros", "mdns", "noise", "quic", "tcp", "tokio", "yamux"] }
log = "0.4"
tokio = { version = "1", features = ["fs", "io-std", "io-util", "macros", "rt-multi-thread", "sync", "time"] }
