[package]
name = "ez_http_rs"
version = "0.1.0"
edition = "2021"
publish = false

[dependencies]
ron = "*"
serde = { version = "*", features = ["derive"] }
signal-hook = "*"
