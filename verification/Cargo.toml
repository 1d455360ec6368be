[package]
name = "namespaced_data"
version = "0.1.0"
edition = "2021"
publish = false

[dependencies]
cid = "=0.11.3"
multihash = "=0.19.5"
celestia-proto = "=0.1.1"
celestia-tendermint-proto = "=0.32.2"
prost = "0.12"
serde = { version = "1", features = ["derive"] }
bytes = "1"
