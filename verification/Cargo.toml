[package]
name = "rsmycqu"
version = "0.1.0"
edition = "2021"
publish = false

[dependencies]
aes = "=0.8.4"
base64 = "=0.22.1"
crypto = { version = "=0.5.1", features = ["cipher"] }
des = "=0.8.1"
ecb = "=0.1.2"
hex = "=0.4.3"
reqwest = { version = "=0.12.28", default-features = false, features = ["json"] }
serde = { version = "=1.0.229", features = ["derive"] }
serde_json = "=1.0.151"
