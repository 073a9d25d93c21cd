[package]
name = "nft_solana_marketplace"
version = "0.1.0"
edition = "2021"
publish = false

[dependencies]
mpl-token-metadata = "=1.12.2"
mpl-token-auth-rules = "=1.3.0"
solana-program = "~1.14"
spl-associated-token-account = "=1.1.3"
spl-token = "=3.5.0"
spl-token-2022 = "=0.6.1"
