[package]
name = "bitcomm"
version = "0.1.0"
edition = "2021"
publish = false

[dependencies]
s2n-quic = "1"
tokio = { version = "1", features = ["full"] }
tracing = "0.1"
tracing-subscriber = { version = "0.3", features = ["env-filter"] }
colored = "2"
ctrlc = "3"
slog = "2"
