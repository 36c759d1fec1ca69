[package]
name = "abpl"
version = "0.1.0"
edition = "2021"
publish = false

[dependencies]
indenter = "0.3"
serde = { version = "1", features = ["derive"] }
serde_with = "3"
utoipa = "5"
http = "1"
