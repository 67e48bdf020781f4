[package]
name = "gluestick"
version = "0.1.0"
edition = "2021"
publish = false

[dependencies]
argon2 = "0.5"
axum = "0.7"
axum-extra = { version = "0.9", features = ["cookie"] }
dotenvy = "0.15"
jiff = "0.1"
rand = "0.8"
rand_chacha = "0.3"
rusqlite = { version = "0.31", features = ["bundled"] }
secrecy = "0.8"
serde = { version = "1", features = ["derive"] }
sha2 = "0.10"
syntect = { version = "5", default-features = false, features = ["default-fancy"] }
thiserror = "1"
tokio = { version = "1", features = ["full"] }
tokio-rusqlite = "0.5"
tower-http = { version = "0.5", features = ["trace", "timeout", "compression-gzip", "fs"] }
tracing = "0.1"
tracing-subscriber = "0.3"
uuid = { version = "1", features = ["v7", "serde"] }
validator = "0.18"
