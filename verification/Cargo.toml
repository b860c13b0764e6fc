[package]
name = "ironfish_dkg"
version = "0.1.0"
edition = "2021"
publish = false

[dependencies]
ironfish-frost = "=0.1.0"
jubjub = "=0.11.1"
blake2b_simd = "=1.0.5"
blake2s_simd = "=1.0.5"
rand_core = { version = "=0.6.4", features = ["getrandom"] }

[dev-dependencies]
rand_chacha = "=0.3.1"
