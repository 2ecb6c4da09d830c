[package]
name = "camshot"
version = "0.1.0"
edition = "2021"
publish = false

[dependencies]
anyhow = "*"
chrono = "*"
dotenvy = "*"
image = { version = "*", default-features = false, features = ["jpeg"] }
v4l = "*"
