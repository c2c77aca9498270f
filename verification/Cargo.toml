[package]
name = "headless"
version = "0.1.0"
edition = "2021"
publish = false

[dependencies]
glutin = { version = "*", default-features = false, features = ["egl"] }
glow = "*"
thiserror = "*"
