[package]
name = "valkyrie"
version = "0.1.0"
edition = "2021"
publish = false

[dependencies]
cosmwasm-std = { version = "=0.16.7", features = ["staking"] }
cw20 = "=0.8.1"
cw-storage-plus = "=0.8.1"
schemars = "=0.8.22"
serde = { version = "=1.0.229", default-features = false, features = ["derive"] }
terra-cosmwasm = "=2.2.0"
terraswap = "=2.4.1"
valkyrie-qualifier = "=1.0.7"
