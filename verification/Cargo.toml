[package]
name = "rating_sync"
version = "0.1.0"
edition = "2021"
publish = false

[dependencies]
anyhow = "*"
async-trait = "*"
axum = "*"
flate2 = "*"
reqwest = { version = "*", default-features = false, features = ["rustls-tls"] }
serde = { version = "*", features = ["derive"] }
serde_json = "*"
sqlx = { version = "*", default-features = false, features = ["mysql", "runtime-tokio"] }
tokio = { version = "*", features = ["full"] }
tokio-cron-scheduler = "*"
tracing = "*"
tracing-subscriber = "*"
traq = "*"
urlencoding = "*"
uuid = { version = "*", features = ["serde"] }
