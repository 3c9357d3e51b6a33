[package]
name = "solana-pinocchio-starter"
version = "0.1.0"
edition = "2021"
publish = false

[dependencies]
pinocchio = "0.8"
pinocchio-pubkey = "0.2"
pinocchio-system = "0.2"
shank = "0.4"
