[package]
name = "minstrel"
version = "0.1.0"
edition = "2021"
publish = false

[dependencies]
priority-queue = "1"
rand = "0.8"
pbkdf2 = { version = "0.11", features = ["simple"] }
log = "0.4"
lazy_static = "1"
dotenv = "0.15"
serde = { version = "1", features = ["derive"] }
serde_json = "1"
tokio = { version = "1", features = ["rt-multi-thread", "macros", "sync", "time"] }
youtube_dl = { version = "0.7", default-features = false }
async-trait = "0.1"
sqlx = { version = "0.6", default-features = false, features = ["runtime-tokio-rustls", "sqlite"] }
serenity = { version = "0.11", default-features = false, features = ["builder", "cache", "client", "framework", "gateway", "model", "standard_framework", "utils", "rustls_backend"] }
