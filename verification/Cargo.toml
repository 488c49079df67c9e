[package]
name = "axum_skeleton"
version = "0.1.0"
edition = "2021"
publish = false

[dependencies]
chrono = "*"
axum = "*"
tokio = { version = "*", features = ["full"] }
tower-http = { version = "*", features = ["cors"] }
serde = { version = "*", features = ["derive"] }
dotenv = "*"
tracing = "*"
tracing-subscriber = "*"

[dev-dependencies]
serde_json = "*"
