[package]
name = "stake_pool_cli"
version = "0.1.0"
edition = "2021"
publish = false

[dependencies]
bincode = "=1.3.3"
clap = "=2.34.0"
serde = { version = "=1.0.229", features = ["derive"] }
solana-logger = "=2.3.1"
solana-program = "=2.3.0"
solana-sdk = "=2.3.1"
solana-stake-interface = { version = "=1.2.1", features = ["bincode"] }
solana-system-interface = { version = "=1.0.0", features = ["bincode"] }
spl-associated-token-account = { version = "=7.0.0", features = ["no-entrypoint"] }
spl-associated-token-account-client = "=2.0.0"
spl-stake-pool = { version = "=2.0.3", features = ["no-entrypoint"] }
spl-token = { version = "=8.0.0", features = ["no-entrypoint"] }
spl-token-2022 = { version = "=9.0.0", features = ["no-entrypoint"] }
