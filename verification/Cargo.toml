[package]
name = "simple_ledger"
version = "0.1.0"
edition = "2021"
publish = false

[dependencies]
tinyset = "*"
csv = "*"
serde = { version = "*", features = ["derive"] }
