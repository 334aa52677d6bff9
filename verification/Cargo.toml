[package]
name = "crosschain_swaps"
version = "0.1.0"
edition = "2021"
publish = false

[dependencies]
cosmwasm-std = { version = "=3.0.10", features = ["stargate"] }
cw2 = "=3.0.0"
