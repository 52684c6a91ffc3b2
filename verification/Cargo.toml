[package]
name = "juno_vaults"
version = "0.1.0"
edition = "2021"
publish = false

[dependencies]
chrono = "0.4"
cosmwasm-std = "1"
cw20 = "1"
cw721 = "0.18"
cosmwasm-schema = "1"
