[package]
name = "solana_bincode"
version = "0.1.0"
edition = "2021"
publish = false

[dependencies]
bincode = { version = "=2.0.1", features = ["serde"] }
serde_core = "=1.0.229"
solana-instruction-error = "=3.1.0"

[dev-dependencies]
solana-system-interface = { version = "=3.3.0", features = ["alloc", "serde"] }
