[package]
name = "valdi_rust"
version = "0.1.0"
edition = "2021"
publish = false

[dependencies]
postcard = { version = "1", features = ["alloc"] }
serde = { version = "1", features = ["derive"] }
serde_json = "1"
