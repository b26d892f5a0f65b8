[package]
name = "filecrypt"
version = "0.1.0"
edition = "2021"
publish = false

[dependencies]
aes = "0.8"
argon2 = "0.5"
cbc = { version = "0.1", features = ["block-padding", "alloc"] }
hmac = "0.12"
rand = "0.8"
sha2 = "0.10"
clap = { version = "4", features = ["derive"] }
rpassword = "7"
