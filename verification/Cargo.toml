[package]
name = "elfo_core"
version = "0.1.0"
edition = "2021"
publish = false

[dependencies]
futures = "0.3"
hyper = { version = "0.14", features = ["http1", "server", "tcp"] }
parking_lot = "0.12"
tokio = { version = "1", features = ["rt"] }
