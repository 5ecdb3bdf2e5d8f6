[package]
name = "stevedore"
version = "0.1.0"
edition = "2021"
publish = false

[dependencies]
openssl = "0.10"
uuid = { version = "1", features = ["v4"] }
tonic = { version = "0.12", features = ["tls"] }
prost = "0.13"
tokio = { version = "1", features = ["rt-multi-thread", "macros"] }
