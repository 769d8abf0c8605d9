[package]
name = "rate_limiter"
version = "0.1.0"
edition = "2021"
publish = false

[dependencies]
axum = "*"
hyper = "*"
thiserror = "*"
tokio = { version = "*", features = ["full"] }
tower = "*"
tracing = "*"
tracing-subscriber = "*"
