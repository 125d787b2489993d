[package]
name = "wake"
version = "0.1.0"
edition = "2021"
publish = false

[dependencies]
ringbuffer = "*"
rand = "0.9"
serde = { version = "1", features = ["derive"] }
serde_json = "1"
dirs = "*"
clap = { version = "4", features = ["derive"] }
