[package]
name = "lichess"
version = "0.1.0"
edition = "2021"
publish = false

[dependencies]
serde_json = "*"
serde = "*"
reqwest = { version = "*", default-features = false, features = ["stream"] }
futures-util = "*"
