[package]
name = "authgate"
version = "0.1.0"
edition = "2021"
publish = false

[dependencies]
hmac = "=0.12.1"
sha2 = "=0.10.9"
hex = "=0.4.3"
jsonwebtoken = "=9.3.1"
chrono = "=0.4.45"
serde = { version = "=1.0.229", features = ["derive"] }
serde_json = "=1.0.154"
axum = "=0.8.9"
sea-orm = { version = "=1.1.20", default-features = false, features = ["macros", "with-chrono", "with-json", "sqlx-postgres", "runtime-tokio-rustls"] }
tokio = { version = "1", features = ["full"] }
thiserror = "1"
tracing = "0.1"
tracing-subscriber = "0.3"
tower-http = { version = "*", features = ["cors", "trace"] }
config = { version = "*", default-features = false }
dotenvy = "0.15"
garde = { version = "*", features = ["derive", "email"] }
validator = "*"
lettre = { version = "*", default-features = false, features = ["smtp-transport", "builder"] }
async-trait = "0.1"
