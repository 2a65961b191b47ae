[package]
name = "asset_tokens"
version = "0.1.0"
edition = "2021"
publish = false

[dependencies]
cosmwasm-std = "1.5"
cw-storage-plus = "1.2"
cw20 = "1.1"
cw20-base = { version = "1.1", features = ["library"] }
schemars = "0.8"
serde = { version = "1", default-features = false, features = ["derive"] }
