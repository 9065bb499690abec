[package]
name = "concurrency"
version = "0.1.0"
edition = "2021"
publish = false

[dependencies]
futures = "=0.3.34"
nix = { version = "0.30", features = ["event"] }
