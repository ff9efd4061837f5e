[package]
name = "probe-rs"
version = "0.1.0"
edition = "2021"
publish = false

[dependencies]
anyhow = "1"
log = "0.4"
scroll = "0.11"
thiserror = "1"
tracing = "0.1"
