[package]
name = "margined_vault"
version = "0.1.0"
edition = "2021"
publish = false

[dependencies]
cosmwasm-std = "=1.5.11"
osmosis-std = "0.25"
serde = "1"
serde_json = "1"
