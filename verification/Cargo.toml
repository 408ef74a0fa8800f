[package]
name = "bitwork_miner"
version = "0.1.0"
edition = "2021"
publish = false

[dependencies]
anyhow = "=1.0.104"
bitcoin = { version = "=0.31.3", features = ["rand-std"] }
hex = "=0.4.3"
minicbor = { version = "=0.20.0", features = ["std"] }
rand = "=0.8.8"
rayon = "=1.12.0"
serde = { version = "=1.0.229", features = ["derive"] }
serde_json = "1"
serde_repr = "=0.1.21"
