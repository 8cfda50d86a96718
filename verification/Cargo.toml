[package]
name = "dexchain"
version = "0.1.0"
edition = "2021"
publish = false

[dependencies]
sp-io = "=49.0.0"
libsecp256k1 = "=0.7.2"
sp-arithmetic = "=29.0.0"
ethereum-types = "=0.16.0"
ethereum = "*"
