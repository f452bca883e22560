[package]
name = "rendering4d"
version = "0.1.0"
edition = "2021"
publish = false

[dependencies]
anyhow = "=1.0.104"
cgmath = "=0.18.0"
rand = "=0.8.8"

[dev-dependencies]
encase = { version = "=0.9.0", features = ["cgmath"] }
