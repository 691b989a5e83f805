[package]
name = "const_tweaker"
version = "0.1.0"
edition = "2021"
publish = false

[dependencies]
dashmap = "*"
tide = "*"
async-std = "*"
serde = { version = "*", features = ["derive"] }
anyhow = "*"
