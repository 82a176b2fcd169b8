[package]
name = "seesaw"
version = "0.1.0"
edition = "2021"
publish = false

[dependencies]
cosmwasm-std = "*"
cosmwasm-bignumber = "*"
cw-storage-plus = "*"
cw20 = "*"
serde = "*"
schemars = "*"
terraswap = "*"
terra-cosmwasm = "*"
moneymarket = "*"
