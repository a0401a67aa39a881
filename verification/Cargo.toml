[package]
name = "zone_update"
version = "0.1.0"
edition = "2021"
publish = false

[dependencies]
serde = { version = "*", features = ["derive"] }
serde_json = "*"
chrono = "*"
hex = "*"
hmac = "*"
sha1 = "*"
ureq = { version = "*", features = ["native-tls"] }
blocking = "*"
