[package]
name = "migration_batch"
version = "0.1.0"
edition = "2021"
publish = false

[dependencies]
anyhow = "=1.0.104"
bincode = "=1.3.3"
borsh = "=0.10.4"
console = "=0.15.11"
futures = "=0.3.34"
serde = { version = "=1.0.229", features = ["derive"] }
serde_json = "=1.0.151"
solana-program = "=1.18.26"
spl-token = { version = "=3.5.0", features = ["no-entrypoint"] }
tokio = { version = "=1.53.2", features = ["macros", "rt-multi-thread", "sync"] }
