[package]
name = "near_account_remover"
version = "0.1.0"
edition = "2021"
publish = false

[dependencies]
dialoguer = "=0.10.4"
dirs = "=5.0.1"
near-crypto = "=0.17.0"
near-jsonrpc-client = "=0.6.0"
near-jsonrpc-primitives = "=0.17.0"
near-primitives = "=0.17.0"
tokio = { version = "=1.28.2", features = ["macros", "rt-multi-thread", "time"] }
tokio-stream = "=0.1.14"
