[package]
name = "exam_backend"
version = "0.1.0"
edition = "2021"
publish = false

[dependencies]
axum = "=0.7.9"
dotenvy = "=0.15.7"
pgvector = { version = "=0.4.2", features = ["sqlx"] }
reqwest = { version = "=0.12.28", default-features = false, features = ["json", "rustls-tls"] }
serde = { version = "=1.0.229", features = ["derive"] }
serde_json = "=1.0.154"
sqlx = { version = "=0.9.0", default-features = false, features = ["postgres", "runtime-tokio", "uuid", "json", "migrate"] }
tokio = { version = "=1.54.1", features = ["full"] }
uuid = { version = "=1.29.0", features = ["v4", "serde"] }
