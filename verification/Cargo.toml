[package]
name = "token_swap"
version = "0.1.0"
edition = "2021"
publish = false

[dependencies]
solana-program = "=3.0.0"
spl-token = "=9.0.0"
arrayref = "=0.3.9"
