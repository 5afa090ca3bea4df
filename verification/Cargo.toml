[package]
name = "iam"
version = "0.1.0"
edition = "2021"
publish = false

[dependencies]
rust-argon2 = "=1.0.1"
bcrypt = "=0.15.1"
rand = "=0.8.8"
chrono = "=0.4.45"
validator = "=0.16.1"
jsonwebtoken = "=9.3.1"
serde = { version = "=1.0.229", features = ["derive"] }
serde_json = "=1.0.154"
thiserror = "=1.0.69"
once_cell = "=1.21.4"
anyhow = "=1.0.104"
tracing = "=0.1.44"
tracing-subscriber = "=0.3.23"
dotenv = "=0.15.0"
futures-util = "=0.3.34"
tokio = { version = "=1.54.1", features = ["rt-multi-thread", "macros", "sync"] }
actix-web = { version = "=4.18.1", default-features = false, features = ["macros"] }
sea-orm = { version = "=0.12.15", default-features = false, features = ["macros"] }
reqwest = { version = "=0.11.27", default-features = false, features = ["json"] }
redis = { version = "=0.23.5", default-features = false, features = ["tokio-comp"] }
lettre = { version = "=0.10.4", default-features = false, features = ["builder", "smtp-transport", "tokio1", "tokio1-rustls-tls"] }
