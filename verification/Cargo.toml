[package]
name = "gateway"
version = "0.1.0"
edition = "2021"
publish = false

[dependencies]
moka = { version = "=0.12.16", default-features = false, features = ["sync"] }
serde_json = "=1.0.154"
serde = { version = "1", features = ["derive"] }
serde_with = "3"
axum = "0.7.9"
axum-macros = "0.4.2"
tokio = { version = "1", features = ["macros", "rt-multi-thread", "net"] }
hyper = "1"
tower-http = { version = "0.5.2", features = ["trace", "compression-gzip", "cors", "sensitive-headers", "normalize-path"] }
tower-layer = "0.3.3"
tower-request-id = "0.3.0"
tracing = "0.1"
uuid = { version = "1", features = ["v4"] }
sqlx = { version = "0.8.6", default-features = false, features = ["postgres", "runtime-tokio", "derive"] }
redis = { version = "0.27.6", features = ["tokio-comp"] }
reqwest = { version = "0.11.27", default-features = false, features = ["blocking"] }
lapin = { version = "3.6.0", default-features = false }
emit = "1.9.0"
log = "0.4"
env_logger = "0.10.2"
dotenv = "0.15.0"
hostname = "0.3.1"
slog = "2"
slog-async = "2"
slog-term = "2"
slog-gelf = "0.1.2"
async-trait = "0.1"
thiserror = "1.0.69"
