[package]
name = "most-bridge-backend"
version = "0.1.0"
edition = "2021"
publish = false

[dependencies]
base64 = "0.21"
sha2 = "0.10"
candid = "0.10"
ic-stable-structures = "0.6"
ic-cdk = "0.13"
ic-cdk-timers = "0.7"
ic-canister-log = "0.2"
icrc-ledger-types = "0.1"
serde = { version = "1", features = ["derive"] }
serde_json = "1"
fastcrypto = "0.1"
