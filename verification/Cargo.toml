[package]
name = "sled-typed"
version = "0.1.0"
edition = "2021"
publish = false

[dependencies]
sled = { version = "0.34", features = ["compression"] }
