[package]
name = "quic_p2p"
version = "0.1.0"
edition = "2021"
publish = false

[dependencies]
bincode = "1"
bytes = "1"
directories = "5"
serde = "1"
tokio = { version = "1", default-features = false, features = ["sync"] }
