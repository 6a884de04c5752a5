[package]
name = "blazarbit_protocol"
version = "0.1.0"
edition = "2021"
publish = false

[dependencies]
cosmwasm-std = "1.1"
cw2 = "0.16"
cw721-base = "0.16"
cw-osmo-proto = "*"
cw-storage-plus = "0.16"
schemars = "0.8"
serde = { version = "1.0", features = ["derive"] }
