[package]
name = "book_service"
version = "0.1.0"
edition = "2021"
publish = false

[dependencies]
dotenv = "=0.15.0"
envconfig = "=0.11.1"
poem = "=3.1.12"
poem-openapi = { version = "=5.1.16", features = ["swagger-ui", "redoc", "rapidoc", "openapi-explorer"] }
sqlx = { version = "=0.9.0", default-features = false, features = ["runtime-tokio", "postgres"] }
tokio = { version = "=1.53.2", features = ["macros", "rt-multi-thread"] }
tracing-subscriber = "=0.3.23"
