[package]
name = "identity_log"
version = "0.1.0"
edition = "2021"
publish = false

[dependencies]
base64ct = { version = "1", features = ["alloc"] }
ed25519-dalek = "2"
serde = { version = "1", features = ["derive"] }
serde_json = "1"
sha2 = "0.10"
sqlx = { version = "0.8", default-features = false, features = ["postgres", "runtime-tokio", "uuid"] }
subtle = "2"
url = "2"
uuid = { version = "1", features = ["v7"] }
x509-parser = "*"
zeroize = "1"
