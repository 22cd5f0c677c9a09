[package]
name = "wingb"
version = "0.1.0"
edition = "2021"
publish = false

[dependencies]
anyhow = "=1.0.104"
askama = "=0.12.1"
askama_axum = "=0.4.0"
axum = "=0.7.9"
axum-htmx = { version = "=0.6.0", features = ["auto-vary"] }
axum-login = "=0.15.3"
axum-template = "=2.4.0"
minijinja = "=2.24.0"
serde = { version = "=1.0.229", features = ["derive"] }
serde_json = "=1.0.154"
sqlx = { version = "=0.8.6", default-features = false, features = ["any", "runtime-tokio", "postgres"] }
sqlx-core = "=0.8.6"
time = "=0.3.55"
tokio = { version = "=1.54.1", features = ["full"] }
tower-sessions = { version = "=0.12.3", features = ["signed"] }
tracing = "=0.1.44"
tracing-subscriber = { version = "=0.3.23", features = ["env-filter"] }
