[package]
name = "josh-proxy"
version = "0.1.0"
edition = "2021"
publish = false

[dependencies]
git2 = { version = "*", default-features = false }
uuid = { version = "*", features = ["v4"] }
tracing = "*"
