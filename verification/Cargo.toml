[package]
name = "headstash"
version = "0.1.0"
edition = "2021"
publish = false

[dependencies]
cosmwasm-schema = "=1.5.11"
cosmwasm-std = { version = "=1.5.11", features = ["cosmwasm_1_3"] }
cw-storage-plus = "=1.2.0"
cw-utils = "=1.0.3"
cw2 = "=1.1.2"
ethereum-verify = "=3.15.0"
hex = "=0.4.3"
schemars = "=0.8.22"
serde = { version = "=1.0.229", features = ["derive"] }
sha2 = "=0.10.9"
thiserror = "=1.0.69"

[dev-dependencies]
k256 = "=0.13.4"
sha3 = "=0.10.9"
