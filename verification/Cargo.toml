[package]
name = "icx_nns"
version = "0.1.0"
edition = "2021"
publish = false

[dependencies]
anyhow = "=1.0.104"
candid = { version = "=0.10.39", features = ["value"] }
chrono = "=0.4.45"
clap = { version = "=4.6.7", features = ["derive"] }
crc32fast = "=1.5.3"
garcon = { version = "=0.2.3", features = ["async"] }
hex = "=0.4.3"
humanize-rs = "=0.1.5"
ic-agent = "=0.49.3"
ic-identity-hsm = "=0.49.3"
ic-types = "=0.7.0"
num-traits = "=0.2.19"
openssl = "=0.10.81"
rust_decimal = "=1.43.0"
serde = { version = "=1.0.229", features = ["derive"] }
serde_cbor = "=0.11.2"
serde_json = "=1.0.154"
tokio = { version = "=1.54.1", features = ["rt-multi-thread"] }
