[package]
name = "anchor_auction"
version = "0.1.0"
edition = "2021"
publish = false

[dependencies]
anchor-lang = "*"
anchor-spl = "*"
solana-program = "*"
spl-token = "*"
