[package]
name = "credential_vault"
version = "0.1.0"
edition = "2021"
publish = false

[dependencies]
aes-gcm = "0.10"
argon2 = "0.5"
rusqlite = { version = "*", features = ["bundled"] }
