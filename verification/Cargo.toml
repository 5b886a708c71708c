[package]
name = "gossip_node"
version = "0.1.0"
edition = "2021"
publish = false

[dependencies]
primes = "0.3"
serde = { version = "1", features = ["derive"] }
serde_json = "1"
crossbeam = "0.8"
rand = "0.8"
tokio = { version = "1", features = ["full"] }
warp = "0.3"
reqwest = { version = "0.11", default-features = false }
