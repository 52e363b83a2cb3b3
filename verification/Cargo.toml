[package]
name = "movement"
version = "0.1.0"
edition = "2021"
publish = false

[dependencies]
bevy = { version = "=0.5.0", default-features = false }
ordered-float = "=2.10.1"
darling = "=0.10.2"
