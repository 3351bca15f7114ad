[package]
name = "guessr"
version = "0.1.0"
edition = "2021"
publish = false

[dependencies]
anchor-lang = { version = "=1.2.2", features = ["init-if-needed"] }
anchor-spl = { version = "=1.2.2", default-features = false, features = ["token", "associated_token", "solana-v3"] }
bytemuck = { version = "=1.25.2", features = ["derive"] }
ephemeral-rollups-sdk = { version = "=0.17.3", features = ["anchor"] }
