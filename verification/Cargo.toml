[package]
name = "nervio_limiter"
version = "0.1.0"
edition = "2021"
publish = false

[dependencies]
actix-web = { version = "=4.18.1", default-features = false, features = ["macros"] }
axum = { version = "=0.7.9", default-features = false, features = ["http1", "tokio"] }
chrono = { version = "=0.4.45", default-features = false, features = ["clock"] }
dashmap = "=6.2.1"
derive_more = { version = "1", features = ["display"] }
futures-util = "0.3"
hashbrown = "=0.15.5"
log = "0.4"
redis = { version = "0.25", features = ["tokio-comp"] }
serde = { version = "1", features = ["derive"] }
serde_json = "1"
tokio = { version = "1", features = ["rt", "sync", "time"] }
tracing = "0.1"
