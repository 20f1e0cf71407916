[package]
name = "auth_service"
version = "0.1.0"
edition = "2021"
publish = false

[dependencies]
argon2 = { version = "=0.5.3", features = ["std"] }
axum = "=0.7.9"
axum-extra = { version = "=0.9.6", features = ["cookie"] }
color-eyre = "0.6"
jsonwebtoken = { version = "=9.3.1", default-features = false }
rand = "=0.8.8"
redis = "=0.25.5"
secrecy = { version = "=0.8.0", features = ["serde"] }
serde = { version = "=1.0.229", features = ["derive"] }
serde_json = "=1.0.154"
sqlx = { version = "=0.8.6", default-features = false, features = ["runtime-tokio", "postgres"] }
tokio = { version = "=1.54.1", features = ["rt-multi-thread", "macros", "net", "sync"] }
tower-http = { version = "=0.5.2", features = ["fs"] }
tracing = "=0.1.44"
uuid = { version = "=1.29.0", features = ["v4"] }
validator = "=0.16.1"
