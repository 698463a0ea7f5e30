[package]
name = "engine_tt"
version = "0.1.0"
edition = "2021"
publish = false

[dependencies]
tantivy = "*"
uuid = { version = "*", features = ["v4"] }
anyhow = "*"
serde = { version = "*", features = ["derive"] }
axum = "*"
tokio = { version = "*", features = ["rt-multi-thread", "macros", "net"] }
tower-http = { version = "*", features = ["cors"] }
