[package]
name = "ditto"
version = "0.1.0"
edition = "2021"
publish = false

[dependencies]
chrono = { version = "0.4", default-features = false, features = ["std"] }
reqwest = { version = "0.12", default-features = false }
serde_bencode = "0.2"
