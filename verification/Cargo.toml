[package]
name = "aurora_alert"
version = "0.1.0"
edition = "2021"
publish = false

[dependencies]
chrono = { version = "0.4", default-features = false, features = ["clock", "std", "serde"] }
tera = { version = "1", default-features = false }
anyhow = "1"
serde = { version = "1", features = ["derive"] }
quick-xml = { version = "*", features = ["serialize"] }
reqwest = { version = "0.12", default-features = false, features = ["rustls-tls", "json"] }
tokio = { version = "1", features = ["rt-multi-thread", "macros", "time"] }
sqlx = { version = "0.8", default-features = false, features = ["runtime-tokio", "tls-rustls", "postgres", "chrono", "uuid"] }
lettre = { version = "0.11", default-features = false, features = ["builder", "smtp-transport", "tokio1-rustls-tls"] }
tracing = "0.1"
tracing-subscriber = "0.3"
uuid = "1"
axum = "0.7"
config = { version = "0.14", default-features = false, features = ["toml"] }
