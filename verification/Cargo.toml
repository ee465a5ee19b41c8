[package]
name = "lolcrab"
version = "0.1.0"
edition = "2021"
publish = false

[dependencies]
scarlet = "1"
rand = { version = "0.8", features = ["small_rng"] }
clap = { version = "4", features = ["derive"] }
