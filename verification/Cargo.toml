[package]
name = "aovpn_manager"
version = "0.1.0"
edition = "2021"
publish = false

[dependencies]
base64 = "*"
serde = { version = "*", features = ["derive"] }
