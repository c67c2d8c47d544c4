[package]
name = "scribe_core"
version = "0.1.0"
edition = "2021"
publish = false

[dependencies]
reqwest = { version = "0.12", features = ["multipart"] }
serde_json = "1"
