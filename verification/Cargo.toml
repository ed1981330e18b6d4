[package]
name = "swap"
version = "0.1.0"
edition = "2021"
publish = false

[dependencies]
bitcoin = "=0.26.2"
bincode = "1"
ecdsa_fun = { version = "=0.7.1", features = ["adaptor", "serde"] }
rand_chacha = "=0.3.1"
sha2 = "=0.9.9"
