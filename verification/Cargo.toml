[package]
name = "pill_bench"
version = "0.1.0"
edition = "2021"
publish = false

[dependencies]
bevy = { version = "0.17", default-features = false }
bevy_obj = { version = "0.17", default-features = false }
fyrox = { version = "1.0", default-features = false }
rand = "0.8"
