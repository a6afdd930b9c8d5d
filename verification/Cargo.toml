[package]
name = "nomic_rest"
version = "0.1.0"
edition = "2021"
publish = false

[dependencies]
base64 = "0.13"
hex = "0.4"
chrono = { version = "0.4", default-features = false, features = ["std"] }
bitcoin = "0.29"
serde = { version = "1", features = ["derive"] }
serde_json = "1"
lazy_static = "1"
tokio = { version = "1", features = ["sync", "macros", "rt-multi-thread"] }
tendermint = "0.32"
tendermint-rpc = { version = "0.32", features = ["http-client"] }
rocket = { version = "0.5", features = ["json"] }
