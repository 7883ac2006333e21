[package]
name = "safe_pump"
version = "0.1.0"
edition = "2021"
publish = false

[dependencies]
anchor-lang = { version = "=0.30.1", features = ["init-if-needed"] }
anchor-spl = "=0.30.1"
blstrs = "=0.7.1"
raydium-cp-swap = { version = "=0.1.1392", features = ["cpi"] }
solana-program = "=1.18.26"

[dev-dependencies]
group = "=0.13.0"
