[package]
name = "rgirl"
version = "0.1.0"
edition = "2021"
publish = false

[dependencies]
ciborium = "*"
serde = { version = "*", features = ["derive"] }
