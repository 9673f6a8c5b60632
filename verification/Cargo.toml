[package]
name = "eth_transfer"
version = "0.1.0"
edition = "2021"
publish = false

[dependencies]
ethers = { version = "2", default-features = false }
tokio = { version = "1", features = ["rt-multi-thread", "macros"] }
dotenv = "0.15"
serde_json = "1"
