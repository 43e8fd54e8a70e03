[package]
name = "wavy"
version = "0.1.0"
edition = "2021"
publish = false

[dependencies]
anyhow = "*"
argon2 = "*"
axum = { version = "*", features = ["ws"] }
axum-extra = { version = "*", features = ["cookie-private", "multipart"] }
base64 = "*"
bytes = "*"
chrono = { version = "*", features = ["serde"] }
dotenvy = "*"
flate2 = "*"
rand = "*"
rmp-serde = "*"
serde = { version = "*", features = ["derive"] }
serde_json = "*"
sqlx = { version = "*", default-features = false, features = ["runtime-tokio", "sqlite", "macros"] }
symphonia = { version = "*", features = ["mp3"] }
time = "*"
tokio = { version = "*", features = ["full"] }
tokio-stream = { version = "*", features = ["sync"] }
tower-http = { version = "*", features = ["cors", "fs"] }
tracing = "*"
tracing-subscriber = "*"
