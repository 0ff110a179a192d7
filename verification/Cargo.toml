[package]
name = "stake_o_matic"
version = "0.1.0"
edition = "2021"
publish = false

[dependencies]
solana-sdk = "2"
clap = "2"
log = "0.4"
serde_yaml = "0.8"
