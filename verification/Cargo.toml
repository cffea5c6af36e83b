[package]
name = "event_service"
version = "0.1.0"
edition = "2021"
publish = false

[dependencies]
anyhow = "=1.0.104"
axum = "=0.8.9"
serde = { version = "=1.0.229", features = ["derive"] }
serde_json = "=1.0.154"
serde_with = { version = "=3.24.0", default-features = false, features = ["macros"] }
sqlx = { version = "=0.9.0", default-features = false, features = ["postgres", "runtime-tokio", "derive"] }
tokio = { version = "=1.54.1", features = ["rt-multi-thread", "macros", "net"] }
tower-http = { version = "=0.7.1", features = ["trace"] }
tracing = "=0.1.44"
tracing-subscriber = "=0.3.23"
utoipa = { version = "=6.0.0", features = ["axum_extras"] }
utoipa-swagger-ui = { version = "=10.0.2", features = ["axum", "vendored"] }
validator = { version = "=0.21.0", features = ["derive"] }
