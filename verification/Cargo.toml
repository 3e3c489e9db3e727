[package]
name = "perp_router"
version = "0.1.0"
edition = "2021"
publish = false

[dependencies]
solana-program = "2"
spl-token = { version = "*", features = ["no-entrypoint"] }
spl-associated-token-account = { version = "*", features = ["no-entrypoint"] }
borsh = { version = "1", features = ["derive"] }
bytemuck = { version = "1", features = ["derive"] }
thiserror = "*"
num_enum = "*"
bincode = "1"
lib-sokoban = "*"
shank = "*"
solana-security-txt = "*"
solana-instruction = "*"
ephemeral-rollups-sdk = "*"
magicblock-magic-program-api = "*"
