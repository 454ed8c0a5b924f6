[package]
name = "intermediary"
version = "0.1.0"
edition = "2021"
publish = false

[dependencies]
solana-program = "2.2"
spl-token = { version = "8.0", features = ["no-entrypoint"] }
spl-associated-token-account = { version = "7.0", features = ["no-entrypoint"] }
borsh = { version = "1.5", features = ["derive", "unstable__schema"] }
thiserror = "2"
num-derive = "0.4"
num-traits = "0.2"
clap = { version = "4", features = ["cargo"] }
serde_json = "1"
solana-sdk = "2.2"
