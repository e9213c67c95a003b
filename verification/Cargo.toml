[package]
name = "daily_tasks"
version = "0.1.0"
edition = "2021"
publish = false

[dependencies]
validator = "0.16"
uuid = { version = "1", features = ["v4", "serde"] }
chrono = { version = "0.4", default-features = false, features = ["clock", "serde"] }
serde = { version = "1", features = ["derive"] }
actix-web = "4"
actix-session = { version = "0.7", features = ["redis-rs-session"] }
actix-cors = "0.6"
actix-web-lab = "0.19"
anyhow = "1"
thiserror = "1"
tracing = "0.1"
tracing-actix-web = "0.7"
secrecy = { version = "0.8", features = ["serde"] }
sqlx = { version = "0.7", default-features = false, features = ["runtime-tokio", "postgres", "uuid", "chrono"] }
argon2 = { version = "0.5", features = ["std"] }
