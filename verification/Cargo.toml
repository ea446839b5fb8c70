[package]
name = "aitotype"
version = "0.1.0"
edition = "2021"
publish = false

[dependencies]
base64 = "0.22"
serde = { version = "1", features = ["derive"] }
serde_json = "1"
reqwest = { version = "0.12", default-features = false, features = ["json", "multipart", "blocking"] }
cpal = "0.15"

[dev-dependencies]
hound = "3.5"
