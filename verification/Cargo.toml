[package]
name = "dockers"
version = "0.1.0"
edition = "2021"
publish = false

[dependencies]
curl = "0.4"
quick-error = "1.2"
serde = { version = "1.0", features = ["derive"] }
serde_derive = "1.0"
serde_json = { version = "1.0", features = ["preserve_order"] }
