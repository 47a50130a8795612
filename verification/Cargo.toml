[package]
name = "shine_auth"
version = "0.1.0"
edition = "2021"
publish = false

[dependencies]
rand = "0.7"
rust-argon2 = "0.8"
data-encoding = "2.1"
percent-encoding = "2.1"
validator = "0.12"
unicode-security = "*"
chrono = "0.4"
block-modes = "=0.8.1"
blowfish = "=0.8.0"
serde = { version = "1", features = ["derive"] }
config = "0.10"
log = "0.4"
env_logger = "0.7"
