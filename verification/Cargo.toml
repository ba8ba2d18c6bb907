[package]
name = "txcore"
version = "0.1.0"
edition = "2021"
publish = false

[dependencies]
hex = "*"
ring = "*"
uuid = { version = "*", features = ["v4"] }
serde = { version = "*", features = ["derive"] }
serde_json = "*"
