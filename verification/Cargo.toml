[package]
name = "unseal"
version = "0.1.0"
edition = "2021"
publish = false

[dependencies]
aes-gcm = "*"
winapi = { version = "0.3", features = ["dpapi", "winbase", "wincrypt"] }
