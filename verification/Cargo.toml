[package]
name = "lako"
version = "0.1.0"
edition = "2021"
publish = false

[dependencies]
bcrypt = "=0.19.3"
jsonwebtoken = { version = "=11.1.0", features = ["rust_crypto"] }
uuid = { version = "=1.27.0", features = ["v4"] }
validator = "=0.21.0"
serde = { version = "=1.0.229", features = ["derive"] }
serde_json = "=1.0.151"
clap = "=4.6.7"
chrono = { version = "=0.4.45", features = ["serde"] }
rust_decimal = "=1.43.0"
