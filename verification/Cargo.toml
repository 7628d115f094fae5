[package]
name = "sqlx-core"
version = "0.1.0"
edition = "2021"
publish = false

[dependencies]
tokio = { version = "=1.54.1", features = ["rt", "rt-multi-thread", "time", "sync"] }
async-std = "=1.13.2"
thiserror = "=2.0.21"
futures-core = "=0.3.34"
futures-util = "=0.3.34"
bytes = "=1.12.1"
tokio-util = "=0.7.20"
wasip3 = { version = "=0.10.0", features = ["async-spawn"] }
