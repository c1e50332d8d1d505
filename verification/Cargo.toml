[package]
name = "redis_exporter"
version = "0.1.0"
edition = "2021"
publish = false

[dependencies]
axum = "*"
envy = "*"
prometheus = { version = "*", default-features = false }
redis = { version = "*", features = ["tokio-comp"] }
serde = { version = "*", features = ["derive"] }
tokio = { version = "*", features = ["macros", "net", "rt-multi-thread", "sync"] }
