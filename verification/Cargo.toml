[package]
name = "sqlite-rembed"
version = "0.1.0"
edition = "2021"
publish = false

[dependencies]
chrono = "0.4"
hex = "0.4"
hmac = "0.12"
serde_json = "1"
sha2 = "0.10"
sqlite-loadable = "*"
ureq = { version = "2", features = ["json"] }
url = "2"
zerocopy = "0.7"
