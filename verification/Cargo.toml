[package]
name = "apple_password_gen"
version = "0.1.0"
edition = "2021"
publish = false

[dependencies]
rand = "0.9"
rand_core = { version = "0.9", features = ["os_rng"] }
