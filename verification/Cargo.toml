[package]
name = "wcore"
version = "0.1.0"
edition = "2021"
publish = false

[dependencies]
tokio = { version = "1", features = ["process", "rt", "macros"] }
serde_json = "1"
async-trait = "0.1"
