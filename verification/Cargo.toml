[package]
name = "srv_rs"
version = "0.1.0"
edition = "2021"
publish = false

[dependencies]
url = "2"
rand = "0.9"
hickory-resolver = "*"
tokio = { version = "1", features = ["rt", "macros"] }
