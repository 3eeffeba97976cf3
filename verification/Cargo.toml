[package]
name = "airdrop_gateway"
version = "0.1.0"
edition = "2021"
publish = false

[dependencies]
axum = { version = "*", default-features = false, features = ["http1", "json", "tokio"] }
serde = { version = "*", features = ["derive"] }
solana-pubkey = "=3.0.0"
solana-rpc-client = { version = "=3.1.14", default-features = false }
tokio = { version = "*", features = ["rt-multi-thread", "macros", "net", "time"] }
