[package]
name = "tx_signing"
version = "0.1.0"
edition = "2021"
publish = false

[dependencies]
borsh = "0.9"
sha2 = "0.9"
