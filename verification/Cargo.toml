[package]
name = "pfly_rust"
version = "0.1.0"
edition = "2021"
publish = false

[dependencies]
socket2 = { version = "=0.6.5", features = ["all"] }
