[package]
name = "portal_core"
version = "0.1.0"
edition = "2021"
publish = false

[dependencies]
axum = { version = "0.7", features = ["ws", "multipart"] }
axum-extra = { version = "0.9", features = ["typed-header"] }
bb8 = "0.8"
bcrypt = "0.15"
chrono = "0.4"
diesel = { version = "2.2", features = ["postgres_backend"] }
diesel-async = { version = "0.5", features = ["postgres", "bb8"] }
futures = "0.3"
headers = "0.4"
jsonwebtoken = "9"
serde = { version = "1", features = ["derive"] }
serde_json = "1"
tokio = { version = "1", features = ["full"] }
tower-http = { version = "0.5", features = ["fs", "trace"] }
tracing = "0.1"
tracing-subscriber = { version = "0.3", features = ["env-filter"] }
