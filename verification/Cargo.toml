[package]
name = "solana_crowdfunding"
version = "0.1.0"
edition = "2021"
publish = false

[dependencies]
anchor-lang = { version = "=1.2.2", features = ["init-if-needed"] }
