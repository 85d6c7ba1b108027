[package]
name = "basket"
version = "0.1.0"
edition = "2021"
publish = false

[dependencies]
serde_json = "1"
url = "2"
reqwest = { version = "0.11", default-features = false }
