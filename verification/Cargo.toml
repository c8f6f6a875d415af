[package]
name = "cargo-contract"
version = "0.8.0"
edition = "2021"
publish = false

[dependencies]
anyhow = "=1.0.104"
colored = "=2.2.0"
env_logger = "=0.8.4"
futures = "=0.3.34"
hex = "=0.4.3"
parity-scale-codec = { version = "=1.3.7", features = ["derive"] }
serde = { version = "=1.0.229", features = ["derive"] }
sp-core = "=2.0.1"
structopt = "=0.3.26"
substrate-bip39 = "=0.4.2"
toml = "=0.5.11"
url = "=2.5.8"
