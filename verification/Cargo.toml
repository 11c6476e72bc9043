[package]
name = "tvbridge"
version = "0.1.0"
edition = "2021"
publish = false

[dependencies]
tiny_http = "0.12"
dirs = "5"
reqwest = { version = "0.12", default-features = false, features = ["blocking"] }

[dev-dependencies]
serde_json = "1"
