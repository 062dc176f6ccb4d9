[package]
name = "cw20-ics20"
version = "0.1.0"
edition = "2021"
publish = false

[dependencies]
cosmwasm-std = { version = "=1.5.11", features = ["stargate", "cosmwasm_1_2"] }
cw2 = "=1.1.2"
cw20 = "=1.1.2"
cw-utils = "=1.0.3"
cw-controllers = "=1.1.2"
cw-storage-plus = "=1.2.0"
schemars = "=0.8.22"
serde = { version = "=1.0.229", default-features = false, features = ["derive"] }
