[package]
name = "stream_escrow"
version = "0.1.0"
edition = "2021"
publish = false

[dependencies]
solana-program = "=3.0.0"
solana-system-interface = { version = "2", features = ["bincode"] }
spl-token = { version = "=9.0.0", features = ["no-entrypoint"] }
spl-associated-token-account = { version = "=8.0.0", features = ["no-entrypoint"] }
borsh = { version = "=1.8.1", features = ["derive"] }
arrayref = "=0.3.9"
num-derive = "=0.4.2"
num-traits = "=0.2.19"
thiserror = "=2.0.21"
