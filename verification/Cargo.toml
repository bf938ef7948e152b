[package]
name = "miner"
version = "0.1.0"
edition = "2021"
publish = false

[dependencies]
borsh = "=0.10.4"
gumdrop = { version = "=0.8.1", features = ["default_expr"] }
mpl-token-metadata = "=5.1.1"
reqwest = { version = "=0.11.27", features = ["json"] }
rusqlite = "=0.40.2"
serde = { version = "1", features = ["derive"] }
serde_json = "=1.0.154"
solana-sdk = { version = "=2.3.1", default-features = false }
tokio = { version = "=1.54.1", features = ["macros", "rt-multi-thread"] }
