[package]
name = "schultz"
version = "0.1.0"
edition = "2021"
publish = false

[dependencies]
openssl = "*"
casper-types = "*"
base64 = "*"
serde = { version = "*", features = ["derive"] }
toml = "*"
