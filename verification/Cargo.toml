[package]
name = "pallas_client"
version = "0.1.0"
edition = "2021"
publish = false

[dependencies]
pallas = "=1.4.0"
tokio = { version = "=1.54.1", features = ["rt-multi-thread"] }
lazy_static = "=1.5.1"
rnet = "=0.3.1"
linkme = "=0.2.10"

[dev-dependencies]
hex = "=0.4.3"
