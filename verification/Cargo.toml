[package]
name = "name_service"
version = "0.1.0"
edition = "2021"
publish = false

[dependencies]
serde_json = "1"
borsh = "*"
near-sdk = { version = "*", features = ["unit-testing"] }
near-contract-standards = "*"
near-sdk-contract-tools = "*"
