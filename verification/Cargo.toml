[package]
name = "ltc_mainchain_adapter"
version = "0.1.0"
edition = "2021"
publish = false

[dependencies]
anyhow = "*"
bitcoincore-rpc = "*"
serde_json = "*"
