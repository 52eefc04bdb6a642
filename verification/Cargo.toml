[package]
name = "spore_warriors_core"
version = "0.1.0"
edition = "2021"
publish = false

[dependencies]
rand = { version = "=0.8.8", features = ["small_rng"] }
rand_xoshiro = "0.6"
rlp = "=0.5.2"
serde = { version = "=1.0.229", features = ["derive"] }
