[package]
name = "chain_source"
version = "0.1.0"
edition = "2021"
publish = false

[dependencies]
bitcoin = "0.32"
lightning = "*"
tokio = { version = "1", features = ["rt", "time", "sync", "macros"] }
esplora-client = { version = "*", default-features = false }
