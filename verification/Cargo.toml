[package]
name = "gateway_doctor"
version = "0.1.0"
edition = "2021"
publish = false

[dependencies]
serialport = { version = "*", default-features = false }
serde = { version = "*", features = ["derive"] }
toml = "*"
figment = { version = "*", features = ["toml"] }
dirs = "*"
