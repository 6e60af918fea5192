[package]
name = "product_catalog"
version = "0.1.0"
edition = "2021"
publish = false

[dependencies]
uuid = { version = "=1.27.0", features = ["v4", "serde"] }
chrono = "=0.4.45"
axum = "=0.8.9"
tokio = { version = "=1.53.2", features = ["macros", "rt-multi-thread", "net"] }
serde = { version = "=1.0.229", features = ["derive"] }
sqlx = { version = "=0.9.0", default-features = false, features = ["runtime-tokio", "postgres", "chrono", "uuid", "bigdecimal"] }
http = "=1.5.0"
thiserror = "=2.0.21"
dotenvy = "=0.15.7"
tracing-subscriber = "=0.3.23"
bigdecimal = { version = "=0.4.11", features = ["serde"] }
