[package]
name = "acme_micro"
version = "0.1.0"
edition = "2021"
publish = false

[dependencies]
base64 = "0.13"
openssl = "0.10"
serde_json = "1"
time = "0.1"
serde = { version = "1", features = ["derive"] }
reqwest = { version = "0.12", default-features = false }
thiserror = "1"
