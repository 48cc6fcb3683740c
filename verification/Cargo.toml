[package]
name = "rauc_engine"
version = "0.1.0"
edition = "2021"
publish = false

[dependencies]
serde = { version = "*", features = ["derive"] }
serde_json = "*"
tokio = { version = "*", features = ["rt-multi-thread", "macros", "process", "io-util", "time"] }
tokio-stream = "*"
async-stream = "*"
dotenvy = "*"
