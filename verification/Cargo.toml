[package]
name = "blog"
version = "0.1.0"
edition = "2021"
publish = false

[dependencies]
anchor-lang = "=0.31.2"
solana-program = "=5.1.0"
