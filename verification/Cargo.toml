[package]
name = "deductio"
version = "0.1.0"
edition = "2021"
publish = false

[dependencies]
uuid = { version = "=1.29.0", features = ["v4", "serde"] }
chrono = { version = "=0.4.45", features = ["serde"] }
serde = { version = "=1.0.229", features = ["derive"] }
serde_json = "=1.0.154"
rocket = { version = "=0.5.2", features = ["json", "secrets", "uuid"] }
rocket_db_pools = { version = "=0.2.0", features = ["diesel_postgres"] }
diesel = { version = "=2.1.6", default-features = false, features = ["postgres_backend", "uuid", "chrono", "serde_json"] }
rocket_oauth2 = "=0.5.0"
reqwest = { version = "=0.12.28", default-features = false, features = ["json", "rustls-tls"] }
dotenvy = "=0.15.7"
