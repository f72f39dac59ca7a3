[package]
name = "shared_journal"
version = "0.1.0"
edition = "2021"
publish = false

[dependencies]
tonic = "*"
serde_json = "*"
futures = "*"
async-trait = "*"
thiserror = "*"
