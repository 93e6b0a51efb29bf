[package]
name = "overworld"
version = "0.1.0"
edition = "2021"
publish = false

[dependencies]
bevy = { version = "0.8", default-features = false }
iyes_loopless = "0.7"
