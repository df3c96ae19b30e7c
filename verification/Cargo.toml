[package]
name = "mexc"
version = "0.1.0"
edition = "2021"
publish = false

[dependencies]
hmac = "*"
sha2 = "*"
md-5 = "*"
hex = "*"
serde_json = "*"
url = "*"
serde = { version = "*", features = ["derive"] }
anyhow = "*"
reqwest = { version = "*", default-features = false, features = ["json"] }
