[package]
name = "mesagisto"
version = "0.1.0"
edition = "2021"
publish = false

[dependencies]
rand = "0.8"
rsa_public_encrypt_pkcs1 = "*"
tokio = { version = "1", features = ["full"] }
