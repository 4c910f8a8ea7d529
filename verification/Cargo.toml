[package]
name = "eventstore_core"
version = "0.1.0"
edition = "2021"
publish = false

[dependencies]
uuid = { version = "*", features = ["v4"] }
serde = "*"
serde_json = "*"
