[package]
name = "percolator_stake"
version = "0.1.0"
edition = "2021"
publish = false

[dependencies]
solana-program = "2"
spl-token = { version = "8", features = ["no-entrypoint"] }
bytemuck = { version = "1", features = ["derive"] }
