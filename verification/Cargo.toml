[package]
name = "gateway_core"
version = "0.1.0"
edition = "2021"
publish = false

[dependencies]
dashmap = "*"
rand = "0.8"
hmac = "*"
sha2 = "*"
x25519-dalek = { version = "*", features = ["static_secrets"] }
serde = { version = "1", features = ["derive"] }
time = "*"
sqlx = { version = "*", default-features = false, features = ["sqlite", "runtime-tokio"] }
