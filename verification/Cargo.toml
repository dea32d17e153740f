[package]
name = "xiangqi"
version = "0.1.0"
edition = "2021"
publish = false

[dependencies]
arboard = { version = "3", default-features = false }
crossbeam-channel = "=0.5.17"
serde = { version = "=1.0.229", features = ["derive"] }
thiserror = "=2.0.21"
tokio = { version = "=1.54.1", features = ["process", "io-util", "time", "rt-multi-thread", "macros", "sync"] }
