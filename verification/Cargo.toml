[package]
name = "alchemist"
version = "0.1.0"
edition = "2021"
publish = false

[dependencies]
fixed = "*"
rand = { version = "0.8", default-features = false, features = ["small_rng"] }
