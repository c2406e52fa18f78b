[package]
name = "pattern_pursuit"
version = "0.1.0"
edition = "2021"
publish = false

[dependencies]
actix-web = { version = "4", default-features = false, features = ["macros", "cookies"] }
actix-cors = "0.6"
actix-files = "0.6"
chrono = "0.4"
dotenv = "0.15"
env_logger = "0.10"
futures = "0.3"
jsonwebtoken = "9"
redis = { version = "0.23", features = ["tokio-comp"] }
redis-macros = "0.2"
reqwest = { version = "0.11", default-features = false, features = ["json", "rustls-tls"] }
serde = { version = "1", features = ["derive"] }
serde_json = { version = "1", features = ["preserve_order"] }
slog = "2"
slog-async = "2"
slog-term = "2"
