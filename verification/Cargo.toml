[package]
name = "my_rust_agent"
version = "0.1.0"
edition = "2021"
publish = false

[dependencies]
axum = "0.7"
nalgebra = "0.33"
ndarray = "0.16"
ndarray-rand = "0.15"
rand = "0.8"
rand_distr = "0.4"
serde = { version = "1", features = ["derive"] }
serde_json = "1"
tokio = { version = "1", features = ["rt-multi-thread", "macros", "net"] }
tracing = "0.1"
tracing-subscriber = "0.3"
uuid = { version = "1", features = ["v4"] }
