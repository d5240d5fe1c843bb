[package]
name = "solana_facade"
version = "0.1.0"
edition = "2021"
publish = false

[dependencies]
axum = "0.7"
base64 = "0.22"
bs58 = "0.5"
serde = { version = "1", features = ["derive"] }
serde_json = "1"
solana-sdk = "1.18"
spl-token = "=4.0.0"
tokio = { version = "1", features = ["macros", "net", "rt-multi-thread"] }
