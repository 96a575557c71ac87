[package]
name = "acme_order"
version = "0.1.0"
edition = "2021"
publish = false

[dependencies]
rcgen = "*"
instant-acme = "*"
serde_json = "*"
tokio = { version = "*", features = ["rt-multi-thread", "macros", "time"] }
