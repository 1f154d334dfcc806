[package]
name = "cw721-base"
version = "0.19.0"
edition = "2021"
publish = false

[dependencies]
cosmwasm-schema = "=2.3.6"
cosmwasm-std = "=2.3.6"
cw-ownable = "=2.1.0"
cw-storage-plus = "=2.0.0"
cw-utils = "=2.0.0"
cw2 = "=2.0.0"
serde = { version = "=1.0.229", default-features = false, features = ["derive"] }
