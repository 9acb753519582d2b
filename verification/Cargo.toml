[package]
name = "cross"
version = "0.1.0"
edition = "2021"
publish = false

[dependencies]
eyre = "0.6"
rustc_version = "0.4"
serde = { version = "1", features = ["derive"] }
serde_json = "1"
