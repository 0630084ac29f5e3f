[package]
name = "counterparty_rs"
version = "0.1.0"
edition = "2021"
publish = false

[dependencies]
bitcoin = "0.32"
crossbeam-channel = "0.5"
hex = "0.4"
rust-crypto = "0.2"
serde_cbor = "0.11"
