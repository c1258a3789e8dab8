[package]
name = "iroh_bridge"
version = "0.1.0"
edition = "2021"
publish = false

[dependencies]
data-encoding = "2"
iroh = "*"
tokio = { version = "1", features = ["io-util", "macros", "net", "rt-multi-thread", "signal", "time"] }
tracing = "0.1"
