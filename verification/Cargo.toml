[package]
name = "nothing"
version = "0.1.0"
edition = "2021"
publish = false

[dependencies]
serde = "0.8"
