[package]
name = "salvo_extra"
version = "0.1.0"
edition = "2021"
publish = false

[dependencies]
hmac = "0.11"
sha2 = "0.9"
salvo_core = "*"
async-session = "3"
tracing = "*"
rand = "*"

[dev-dependencies]
base64 = "0.13"
