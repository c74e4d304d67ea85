[package]
name = "nuitrack_rs"
version = "0.1.0"
edition = "2021"
publish = false

[dependencies]
tokio = { version = "=1.53.2", features = ["rt", "rt-multi-thread", "sync", "time", "macros"] }
tokio-util = "=0.7.19"
futures-channel = "=0.3.34"
serde = "1"
