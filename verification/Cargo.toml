[package]
name = "zero2prod"
version = "0.1.0"
edition = "2021"
publish = false

[dependencies]
argon2 = "=0.5.3"
rand = "=0.8.8"
subtle = "=2.6.1"
uuid = { version = "=1.29.0", features = ["v4"] }
secrecy = { version = "=0.8.0", features = ["serde"] }
validator = { version = "=0.16.1", features = ["phone"] }
anyhow = "1"
thiserror = "1"
tracing = "0.1"
colored = "2"
serde = { version = "1", features = ["derive"] }
serde_json = "1"
http = "1"
axum = "0.7"
axum-macros = "0.4"
axum-extra = "0.9"
axum-flash = "=0.8.0"
axum_session = "=0.22.0"
sqlx = { version = "=0.8.6", default-features = false, features = ["postgres", "runtime-tokio", "uuid"] }
tokio = { version = "1", features = ["macros", "rt-multi-thread", "net", "sync"] }
