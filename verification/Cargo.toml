[package]
name = "trellis"
version = "0.1.0"
edition = "2021"
publish = false

[dependencies]
ctrlc = "=3.5.2"
ndarray = "*"
plotly = "*"
serde = "*"
serde_json = "*"
slog = "*"
slog-async = "*"
slog-term = "*"
tokio-util = "=0.7.19"
tracing = "=0.1.44"
web-time = "=1.1.0"
