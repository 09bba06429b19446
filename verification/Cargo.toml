[package]
name = "cosm_tome"
version = "0.2.0"
edition = "2021"
publish = false

[dependencies]
async-trait = "=0.1.92"
bip32 = { version = "=0.5.3", features = ["bip39"] }
cosmrs = { version = "=0.22.0", features = ["bip32", "cosmwasm", "grpc", "rpc"] }
schemars = "=0.8.22"
serde = { version = "=1.0.229", features = ["derive"] }
serde_json = "=1.0.154"
tendermint-rpc = { version = "=0.40.4", features = ["http-client", "websocket-client"] }
thiserror = "=1.0.69"
tonic = "=0.13.1"
