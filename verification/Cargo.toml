[package]
name = "echo_bank"
version = "0.1.0"
edition = "2021"
publish = false

[dependencies]
grafbase-sdk = { version = "=0.23.1", features = ["jq-selection"] }
rand = "=0.10.3"
serde = { version = "=1.0.229", features = ["derive"] }
serde_json = "=1.0.151"
uuid = { version = "=1.27.0", features = ["v4"] }
