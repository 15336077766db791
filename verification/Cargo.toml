[package]
name = "pin_uv_auth"
version = "0.1.0"
edition = "2021"
publish = false

[dependencies]
p256 = { version = "0.13", features = ["ecdh"] }
rand = "0.8"
sha2 = "0.10"
hmac = "0.12"
aes = "0.8"
cbc = { version = "0.1", features = ["alloc", "block-padding"] }
cosey = "*"
heapless = "*"
async-trait = "*"
tracing = "*"

[dev-dependencies]
hex = "0.4"
