[package]
name = "jogo"
version = "0.1.0"
edition = "2021"
publish = false

[dependencies]
anchor-lang = { version = "=0.32.2", features = ["init-if-needed"] }
anchor-spl = "=0.32.2"
orao-solana-vrf = { version = "=0.7.0", default-features = false, features = ["cpi"] }
solana-program = "=2.3.0"
