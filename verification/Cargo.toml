[package]
name = "pump_trader"
version = "0.1.0"
edition = "2021"
publish = false

[dependencies]
anyhow = "1"
dotenvy = "0.15"
serde = { version = "1", features = ["derive"] }
serde_json = "1"
serde_yaml = "0.9"
tokio = { version = "1", features = ["rt-multi-thread", "macros", "time", "sync"] }
solana-sdk = "3.0.0"
solana-commitment-config = "3.0.0"
sol-safekey = { version = "0.1.8", default-features = false }
