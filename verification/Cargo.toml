[package]
name = "stk_amm"
version = "0.1.0"
edition = "2021"
publish = false

[dependencies]
parity-scale-codec = { version = "=3.7.5", features = ["derive"] }
sp-crypto-hashing = "=0.1.0"
frame-support = { version = "*", default-features = false }
frame-system = { version = "*", default-features = false }
pallet-assets = { version = "*", default-features = false }
sp-runtime = { version = "*", default-features = false }
sp-io = { version = "*", default-features = false }
sp-std = { version = "*", default-features = false }
