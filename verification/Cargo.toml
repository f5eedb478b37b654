[package]
name = "recordbase"
version = "0.1.0"
edition = "2021"

[dependencies]
url = "2"
serde = "1"
serde_json = "1"
http = "1"
reqwest = { version = "0.12", default-features = false }
