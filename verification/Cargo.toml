[package]
name = "zaino_state"
version = "0.1.0"
edition = "2021"
publish = false

[dependencies]
chrono = { version = "0.4", default-features = false, features = ["clock", "std"] }
hex = "0.4"
indexmap = "2"
jsonrpc-core = "18"
tokio = { version = "1", features = ["macros", "rt"] }
tower = { version = "0.4", features = ["util"] }
zebra-state = { version = ">=6, <17", default-features = false }
zebra-chain = ">=7, <16"
