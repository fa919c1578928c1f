[package]
name = "ssri_executor"
version = "0.1.0"
edition = "2021"
publish = false

[dependencies]
serde = { version = "*", features = ["derive"] }
serde_json = "*"
hex = "*"
ckb-jsonrpc-types = "*"
ckb-types = "*"
log = "*"
