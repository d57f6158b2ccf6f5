[package]
name = "disn"
version = "0.1.0"
edition = "2021"
publish = false

[dependencies]
openssl = "0.10"
base64 = "0.13"
rand = "0.8"
uuid = { version = "1", features = ["v4"] }
chrono = "0.4"
serde_json = "1"
