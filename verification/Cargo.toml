[package]
name = "txflood"
version = "0.1.0"
edition = "2021"
publish = false

[dependencies]
hex = "*"
web3 = { version = "*", default-features = false, features = ["ws-tokio"] }
serde_json = "*"
tokio = { version = "1", features = ["macros", "rt-multi-thread", "time"] }
futures = "*"
colored = "*"
