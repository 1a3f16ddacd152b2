[package]
name = "backend"
version = "0.1.0"
edition = "2021"
publish = false

[dependencies]
unicode-segmentation = "=1.13.3"
validator = "=0.16.1"
bigdecimal = { version = "=0.4.11", features = ["serde"] }
uuid = { version = "=1.29.0", features = ["v4", "serde"] }
chrono = { version = "=0.4.45", features = ["serde"] }
serde = { version = "=1.0.229", features = ["derive"] }
serde_json = "=1.0.154"
serde-aux = "=4.7.0"
secrecy = { version = "=0.8.0", features = ["serde"] }
argon2 = { version = "=0.5.3", features = ["std"] }
rand = { version = "=0.8.8", features = ["std_rng"] }
anyhow = "=1.0.104"
thiserror = "=1.0.69"
config = { version = "=0.14.1", default-features = false, features = ["yaml"] }
actix-web = { version = "4", default-features = false, features = ["macros"] }
sqlx = { version = "0.8", default-features = false, features = ["runtime-tokio", "postgres", "uuid", "chrono", "bigdecimal"] }
tokio = { version = "1", features = ["macros", "rt-multi-thread"] }
jsonwebtoken = "9"
