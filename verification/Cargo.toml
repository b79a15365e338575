[package]
name = "dca_bot_pancakeswap_cw"
version = "0.1.0"
edition = "2021"
publish = false

[dependencies]
cosmwasm-schema = "1"
cosmwasm-std = "1"
cw-storage-plus = "1"
cw2 = "1"
ethabi = "18"
thiserror = "1"
