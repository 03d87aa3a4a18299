[package]
name = "rust_ipmi"
version = "0.1.0"
edition = "2021"
publish = false

[dependencies]
aes = "0.8"
cbc = "0.1"
hmac = "0.12"
sha2 = "0.10"
hmac-sha1 = "*"
rand = "0.8"
tokio = { version = "1", features = ["net", "time", "rt", "macros"] }
log = "0.4"
thiserror = "1"
