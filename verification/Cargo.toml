[package]
name = "starfield"
version = "0.1.0"
edition = "2021"
publish = false

[dependencies]
rand = "0.8"
iced = { version = "0.9", default-features = false, features = ["canvas", "tokio", "glow"] }
