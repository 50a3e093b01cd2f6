[package]
name = "jwt_core"
version = "0.1.0"
edition = "2021"
publish = false

[dependencies]
base64-url = "*"
chrono = "0.4"
hmac = "0.12"
sha2 = "0.10"
regex = "1"
serde = { version = "1", features = ["derive"] }
serde_json = "1"
subtle = "2"
uuid = { version = "1", features = ["v4", "serde"] }
