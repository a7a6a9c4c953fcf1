[package]
name = "errno_messages"
version = "0.1.0"
edition = "2021"
publish = false

[dependencies]
rustix = "*"
