[package]
name = "staking"
version = "0.1.0"
edition = "2021"
publish = false

[dependencies]
ink = "4.3.0"
parity-scale-codec = { version = "3", features = ["derive"] }
scale-info = { version = "2", features = ["derive"] }
