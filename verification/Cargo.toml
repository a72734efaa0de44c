[package]
name = "tranched_liquidity"
version = "0.1.0"
edition = "2021"
publish = false

[dependencies]
solana-program = "=1.18.26"
spl-token = "=3.5.0"
