[package]
name = "secp_registers"
version = "0.1.0"
edition = "2021"
publish = false

[dependencies]
secp256k1 = "=0.29.1"
napi = "=1.8.0"
napi-derive = "=1.1.2"
