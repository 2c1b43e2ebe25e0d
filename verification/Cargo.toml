[package]
name = "file_sharing"
version = "0.1.0"
edition = "2021"
publish = false

[dependencies]
libp2p = { version = "=0.53.2", features = ["tokio", "tcp", "noise", "yamux", "kad", "request-response", "macros", "ed25519"] }
tokio = { version = "=1.53.2", features = ["full"] }
futures = "=0.3.34"
async-trait = "=0.1.92"
