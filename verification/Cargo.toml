[package]
name = "ryaml"
version = "0.1.0"
edition = "2021"
publish = false

[dependencies]
serde = "1"
serde_yaml = "0.9"
mlua = { version = "0.10", features = ["lua54", "vendored", "serialize"] }
