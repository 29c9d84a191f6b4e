[package]
name = "kucoin"
version = "0.1.0"
edition = "2021"
publish = false

[dependencies]
base64 = "0.22"
ethers = { version = "2", default-features = false }
hmac = "0.12"
reqwest = { version = "0.12", default-features = false, features = ["json"] }
secrecy = "0.8"
serde = { version = "1", features = ["derive"] }
serde_json = "1"
serde_urlencoded = "0.7"
thiserror = "1"
uuid = { version = "1", features = ["v4"] }
