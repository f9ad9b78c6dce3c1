[package]
name = "stellar"
version = "0.1.0"
edition = "2021"
publish = false

[dependencies]
anyhow = "=1.0.104"
futures = "=0.3.34"
serde = { version = "=1.0.229", features = ["derive"] }
serde_json = "=1.0.154"
stellar-strkey = "=0.0.13"
stellar-xdr = { version = "=23.0.0", features = ["curr", "std", "base64"] }
