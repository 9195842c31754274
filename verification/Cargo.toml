[package]
name = "me_tube"
version = "0.1.0"
edition = "2021"
publish = false

[dependencies]
argon2 = "0.5"
base64 = "0.22"
chrono = "0.4"
rand = "0.8"
