[package]
name = "local_guard"
version = "0.1.0"
edition = "2021"
publish = false

[dependencies]
url = "*"
base64 = "*"
image = { version = "*", default-features = false, features = ["jpeg"] }
time = "*"
