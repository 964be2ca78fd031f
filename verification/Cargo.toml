[package]
name = "paygate"
version = "0.1.0"
edition = "2021"
publish = false

[dependencies]
reqwest = { version = "*", default-features = false, features = ["rustls-tls", "json"] }
rust_decimal = "*"
serde = "*"
serde_json = "*"
