[package]
name = "htlc_escrow"
version = "0.1.0"
edition = "2021"
publish = false

[dependencies]
bincode = "=1.3.3"
cosmwasm-schema = "=1.5.11"
cosmwasm-std = { version = "=1.5.11", features = ["cosmwasm_1_2"] }
cw-storage-plus = "=1.2.0"
cw2 = "=1.1.2"
hex = "=0.4.3"
serde = { version = "=1.0.229", features = ["derive"] }
serde_json = "=1.0.154"
sha2 = "=0.10.9"
sha3 = "=0.10.9"
thiserror = "=1.0.69"
