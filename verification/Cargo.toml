[package]
name = "cch24_core"
version = "0.1.0"
edition = "2021"
publish = false

[dependencies]
rand = "=0.8.8"
hex = "=0.4.3"
toml = "=0.8.23"
serde = { version = "=1.0.229", features = ["derive"] }
serde_json = "=1.0.151"
serde_yaml = "=0.9.34"
serde-transcode = "=1.1.1"
cargo-manifest = "=0.21.0"
axum = "=0.8.9"
axum-extra = { version = "=0.12.6", features = ["cookie", "multipart"] }
jsonwebtoken = "=11.1.0"
chrono = { version = "=0.4.45", features = ["serde"] }
uuid = { version = "=1.27.0", features = ["v4", "serde"] }
sqlx = { version = "=0.9.0", features = ["runtime-tokio", "postgres", "chrono", "uuid", "macros"] }
leaky-bucket = "=1.1.2"
rinja = "=0.3.5"
thiserror = "=2.0.21"
tracing = "=0.1.44"
tokio = { version = "=1.53.2", features = ["rt-multi-thread", "macros", "net"] }
