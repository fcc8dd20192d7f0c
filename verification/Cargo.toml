[package]
name = "xbpf"
version = "0.1.0"
edition = "2021"
publish = false

[dependencies]
libbpf-rs = "*"
tracing = "0.1"
tracing-subscriber = { version = "0.3", features = ["env-filter", "fmt"] }
anyhow = "1"
