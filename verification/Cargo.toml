[package]
name = "garyapi"
version = "0.1.0"
edition = "2021"
publish = false

[dependencies]
ahash = "0.8"
bytes = "1"
dotenvy = "0.15"
fastrand = "2"
http-body-util = "0.1"
hyper = { version = "1", features = ["full"] }
hyper-util = { version = "0.1", features = ["full"] }
lock_api = "0.4"
parking_lot = "0.12"
serde_json = "1"
tokio = { version = "1", features = ["full"] }
