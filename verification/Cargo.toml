[package]
name = "murmur_api"
version = "0.1.0"
edition = "2021"
publish = false

[dependencies]
bcrypt = "=0.19.3"
hex = "=0.4.3"
serde = { version = "=1.0.229", features = ["derive"] }
serde_json = "*"
