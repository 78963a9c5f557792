[package]
name = "kitties"
version = "0.1.0"
edition = "2021"
publish = false

[dependencies]
parity-scale-codec = { version = "=2.3.1", features = ["derive"] }
frame-support = "=3.0.0"
frame-system = "=3.0.0"
sp-core = "=3.0.0"
sp-io = "=3.0.0"
sp-runtime = "=3.0.0"
sp-std = "=3.0.0"
substrate-bip39 = "=0.4.2"
syn = "=1.0.58"
