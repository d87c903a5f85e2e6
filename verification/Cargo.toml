[package]
name = "zero2prod"
version = "0.1.0"
edition = "2021"
publish = false

[dependencies]
anyhow = "=1.0.104"
argon2 = "=0.5.3"
axum = "=0.7.9"
axum-extra = { version = "=0.9.6", features = ["cookie"] }
axum-flash = "=0.8.0"
axum_session = "=0.15.0"
base64 = "=0.21.7"
chrono = { version = "=0.4.45", default-features = false, features = ["clock"] }
config = { version = "=0.13.4", default-features = false, features = ["yaml"] }
http = "=0.2.12"
man = "=0.3.0"
owo-colors = "=3.5.0"
rand = "=0.8.8"
redis = { version = "=0.27.6", features = ["tokio-comp"] }
reqwest = { version = "=0.12.28", default-features = false, features = ["json", "rustls-tls"] }
secrecy = { version = "=0.8.0", features = ["serde"] }
serde = { version = "=1.0.229", features = ["derive"] }
serde-aux = "=4.7.0"
sqlx = { version = "=0.6.3", default-features = false, features = ["runtime-tokio-rustls", "postgres", "uuid", "chrono"] }
thiserror = "=1.0.69"
tokio = { version = "=1.54.1", features = ["macros", "rt-multi-thread", "time", "net"] }
tower = "=0.4.13"
tower-http = { version = "=0.5.2", features = ["trace", "request-id", "util"] }
tracing = { version = "=0.1.44", features = ["log"] }
tracing-bunyan-formatter = "=0.3.11"
tracing-subscriber = { version = "=0.3.23", features = ["registry", "env-filter"] }
unicode-segmentation = "=1.13.3"
uuid = { version = "=1.29.0", features = ["v4", "serde"] }
validator = "=0.16.1"
