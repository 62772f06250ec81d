[package]
name = "chain_state"
version = "0.1.0"
edition = "2021"
publish = false

[dependencies]
rand = "0.8"
tokio = { version = "1", default-features = false, features = ["sync"] }
revm = { version = "*", default-features = false, features = ["std"] }
