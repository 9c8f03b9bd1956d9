[package]
name = "coo"
version = "0.1.0"
edition = "2021"
publish = false

[dependencies]
base64 = "0.21"
bs58 = "0.5"
hex = "0.4"
serde_json = "1"
url = "2"
serde_wormhole = "0.1"
wormhole-vaas-serde = "0.1"
clap = { version = "4", features = ["derive"] }
comfy-table = "7"
dirs = "5"
reqwest = { version = "0.11", default-features = false, features = ["blocking", "rustls-tls"] }
