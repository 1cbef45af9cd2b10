[package]
name = "faucet"
version = "0.1.0"
edition = "2021"
publish = false

[dependencies]
actix-web = { version = "*", default-features = false }
alloy-primitives = "*"
alloy-provider = { version = "*", default-features = false, features = ["reqwest"] }
alloy-signer-local = { version = "*", default-features = false }
alloy-transport-http = { version = "*", default-features = false, features = ["reqwest"] }
serde = { version = "*", features = ["derive"] }
serde_json = "*"
url = "=2.5.0"
