[package]
name = "rustplus"
version = "0.1.0"
edition = "2021"
publish = false

[dependencies]
futures-util = { version = "0.3", features = ["sink"] }
prost = "0.13"
thiserror = "2"
tokio = { version = "1", features = ["net", "sync", "time", "rt", "macros"] }
tokio-tungstenite = "0.26"
