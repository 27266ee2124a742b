[package]
name = "books"
version = "0.1.0"
edition = "2021"
publish = false

[dependencies]
argon2 = "0.5"
axum = "0.8"
axum-extra = { version = "0.10", features = ["cookie"] }
base64 = "0.22"
chrono = { version = "0.4", features = ["serde"] }
dotenv = "0.15"
jsonwebtoken = "9"
redis = { version = "*", features = ["tokio-comp"] }
rust_decimal = { version = "1", features = ["serde"] }
serde = { version = "1", features = ["derive"] }
serde_json = "1"
sqlx = { version = "0.8", features = ["runtime-tokio", "postgres", "uuid", "chrono", "rust_decimal"] }
strum = { version = "*", features = ["derive"] }
time = "0.3"
tokio = { version = "1", features = ["full"] }
tower-http = { version = "0.6", features = ["cors", "trace"] }
tracing = "0.1"
tracing-subscriber = "0.3"
utoipa = { version = "5", features = ["uuid", "chrono", "decimal"] }
utoipa-swagger-ui = { version = "*", features = ["axum"] }
uuid = { version = "1", features = ["v4", "serde"] }
validator = { version = "*", features = ["derive"] }
