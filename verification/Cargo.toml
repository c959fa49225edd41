[package]
name = "andr-staking"
version = "0.1.0"
edition = "2021"
publish = false

[dependencies]
andromeda-std = "=1.0.0"
cosmwasm-schema = "=1.5.11"
cosmwasm-std = { version = "=1.5.11", features = ["staking"] }
cw-storage-plus = "=1.2.0"
cw-utils = "=1.0.3"
cw2 = "=1.1.2"
schemars = "0.8.10"
serde = { version = "1", features = ["derive"] }
