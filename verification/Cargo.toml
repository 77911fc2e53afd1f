[package]
name = "ecommercers"
version = "0.1.0"
edition = "2021"
publish = false

[dependencies]
argon2 = "0.5"
jsonwebtoken = "9"
serde_json = "1"
serde = { version = "1", features = ["derive"] }
rand = "0.8"
chrono = "0.4"
toml = "0.8"
