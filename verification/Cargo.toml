[package]
name = "strat_sdk"
version = "1.0.0"
edition = "2021"
publish = false

[dependencies]
regex = "1"
reqwest = { version = "0.12", features = ["json"] }
serde_json = "1"
thiserror = "1"
