[package]
name = "amm_proxy"
version = "0.1.0"
edition = "2021"
publish = false

[dependencies]
cosmwasm-std = "=0.16.7"
cw20 = "=0.8.1"
astroport = "=1.0.1"
serde = { version = "=1.0.229", features = ["derive"] }
schemars = "=0.8.22"
