[package]
name = "party_types"
version = "0.1.0"
edition = "2021"
publish = false

[dependencies]
anyhow = "1"
async-trait = "0.1"
crossbeam-channel = "0.5"
futures-channel = "0.3"
futures-lite = "2"
