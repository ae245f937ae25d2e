[package]
name = "uasset_parse"
version = "0.1.0"
edition = "2021"
publish = false

[dependencies]
byteorder = "1"
half = "*"
serde = { version = "1", features = ["derive"] }
erased-serde = "*"

[dev-dependencies]
serde_json = "1"
