[package]
name = "otp_service"
version = "0.1.0"
edition = "2021"
publish = false

[dependencies]
hmac = "*"
sha1 = "*"
actix-web = "*"
serde = { version = "*", features = ["derive"] }
derive_more = { version = "*", features = ["display", "error"] }
env_logger = "*"

[dev-dependencies]
otpauth = "*"
