[package]
name = "rocket_csrf_token"
version = "0.1.0"
edition = "2021"
publish = false

[dependencies]
base64 = "0.22"
bcrypt = "0.15"
rand = "0.8"
rocket = { version = "0.5", features = ["secrets"] }
