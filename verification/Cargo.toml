[package]
name = "quibble"
version = "0.1.0"
edition = "2021"
publish = false

[dependencies]
hound = "*"
tokio = { version = "*", features = ["sync"] }
groq-api-rust = "*"
