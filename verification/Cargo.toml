[package]
name = "secure_store"
version = "0.1.0"
edition = "2021"
publish = false

[dependencies]
directories = "*"
tauri = { version = "2", default-features = false }
