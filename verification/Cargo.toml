[package]
name = "nameserver"
version = "0.1.0"
edition = "2021"
publish = false

[dependencies]
byteorder = "=1.5.0"
num-derive = "=0.3.3"
num-traits = "=0.2.19"
solana-sdk = "=1.18.26"
thiserror = "=1.0.69"
