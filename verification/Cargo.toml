[package]
name = "interop_tests"
version = "0.1.0"
edition = "2021"
publish = false

[dependencies]
anyhow = "1"
env_logger = { version = "0.10", default-features = false }
futures = { version = "0.3", default-features = false, features = ["std"] }
libp2p = { version = "=0.53.2", features = ["tokio", "tcp", "dns", "noise", "tls", "yamux", "quic", "websocket", "ping"] }
libp2p-mplex = "=0.41.0"
rand = "0.8"
redis = { version = "0.24", default-features = false, features = ["tokio-comp"] }
tokio = { version = "1", features = ["rt-multi-thread", "macros", "time"] }
