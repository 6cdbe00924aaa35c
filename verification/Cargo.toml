[package]
name = "oas3"
version = "0.1.0"
edition = "2021"
publish = false

[dependencies]
serde = { version = "*", features = ["derive"] }
serde_json = "*"
derive_more = { version = "*", features = ["display", "error"] }
