[package]
name = "tokenfactory_core"
version = "0.1.0"
edition = "2021"
publish = false

[dependencies]
cosmwasm-std = { version = "1", features = ["stargate"] }
cosmwasm-schema = "1"
cw2 = "1"
osmosis-std = "0.22"
schemars = "0.8"
serde = { version = "1", features = ["derive"] }

[dev-dependencies]
anybuf = "*"
