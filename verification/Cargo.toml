[package]
name = "roxy"
version = "0.1.0"
edition = "2021"
publish = false

[dependencies]
hyper = { version = "0.14", features = ["full"] }
log = "0.4"
thiserror = "1"
tokio = { version = "1", features = ["full"] }
