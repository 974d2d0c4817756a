[package]
name = "f1_notifications"
version = "0.1.0"
edition = "2021"
publish = false

[dependencies]
chrono = { version = "=0.4.45", features = ["serde"] }
uri_encode = "=1.0.5"
sha256 = "=1.6.0"
base64 = "=0.22.1"
hex = "=0.4.3"
ed25519-dalek = "=2.2.0"
axum = "=0.8.9"
axum-extra = { version = "=0.12.6", features = ["typed-header"] }
tokio = { version = "=1.54.1", features = ["full"] }
tower = "=0.5.3"
reqwest = { version = "=0.13.5", features = ["json", "form"] }
libsql = { version = "=0.10.0", default-features = false, features = ["core", "serde"] }
serde = { version = "=1.0.229", features = ["derive"] }
serde_json = "=1.0.154"
serde_repr = "=0.1.21"
sentry = { version = "=0.49.5", features = ["tracing", "tower", "tower-http"] }
rand = "=0.10.3"
tracing = "=0.1.44"
tracing-subscriber = "=0.3.23"
dotenvy = "=0.15.7"
