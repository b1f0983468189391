[package]
name = "capture_metrics"
version = "0.1.0"
edition = "2021"
publish = false

[dependencies]
axum = "0.6"
metrics = "0.21"
metrics-exporter-prometheus = "0.12"
