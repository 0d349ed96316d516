[package]
name = "my_nameservice"
version = "0.1.0"
edition = "2021"
publish = false

[dependencies]
cosmwasm-schema = "=2.3.6"
cosmwasm-std = "=2.3.6"
cw-storage-plus = "=2.0.0"
cw721 = "=0.20.0"
thiserror = "=1.0.69"
