[package]
name = "billing"
version = "0.1.0"
edition = "2021"
publish = false

[dependencies]
rust_decimal = "1"
chrono = { version = "0.4", default-features = false, features = ["std", "clock", "serde"] }
uuid = { version = "1", features = ["v4", "serde"] }
serde = { version = "1", features = ["derive"] }
serde_json = "1"
tracing = "0.1"
anyhow = "1"
axum = "0.7"
sqlx = { version = "0.8", default-features = false, features = ["postgres", "runtime-tokio", "uuid", "chrono", "rust_decimal", "json"] }
backbone-core = "*"
backbone-orm = "*"
backbone-auth = "*"
backbone-outbox = "*"
backbone-gl-posting = "*"
backbone-tax = "*"
