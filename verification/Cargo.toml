[package]
name = "terra_vegas"
version = "0.1.0"
edition = "2021"
publish = false

[dependencies]
cosmwasm-std = "0.16"
cosmwasm-bignumber = "2.2"
terra-cosmwasm = "2.2"
cw0 = "0.8"
cw2 = "0.8"
cw20 = "0.8"
cw-storage-plus = "0.8"
moneymarket = "*"
terrand = "*"
schemars = "0.8"
serde = { version = "1.0", default-features = false, features = ["derive"] }
thiserror = "1.0"
