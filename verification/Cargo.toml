[package]
name = "buddy_link"
version = "0.1.0"
edition = "2021"
publish = false

[dependencies]
solana-program = "1.18"
anchor-lang = "0.30.1"
anchor-spl = "0.30.1"

[dev-dependencies]
borsh = "1"
