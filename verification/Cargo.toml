[package]
name = "pallet-game"
version = "0.1.0"
edition = "2021"
publish = false

[dependencies]
bounded-collections = { version = "0.2", default-features = false, features = ["std"] }
