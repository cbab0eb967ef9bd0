[package]
name = "utxo_indexer"
version = "0.1.0"
edition = "2021"
publish = false

[dependencies]
bitcoincore-rpc = "0.17"
chrono = { version = "0.4", features = ["serde"] }
clap = { version = "4", features = ["derive"] }
env_logger = "0.10"
hex = "0.4"
log = "0.4"
reqwest = { version = "0.11", default-features = false, features = ["json"] }
serde = { version = "1", features = ["derive"] }
tokio = { version = "1", features = ["macros", "rt-multi-thread", "time"] }
