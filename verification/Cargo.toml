[package]
name = "user_service"
version = "0.1.0"
edition = "2021"
publish = false

[dependencies]
validator = { version = "=0.16.1", features = ["phone"] }
ansi_term = "=0.12.1"
libreauth = "=0.18.1"
serde = { version = "=1.0.229", features = ["derive"] }
serde_json = "=1.0.154"
chrono = "=0.4.45"
uuid = { version = "=1.29.1", features = ["v4"] }
actix-web = "=4.18.1"
config = "=0.15.27"
dotenv = "=0.15.0"
envy = "=0.4.2"
once_cell = "=1.21.4"
log = "=0.4.35"
tracing = "=0.1.44"
tracing-subscriber = { version = "=0.3.23", features = ["env-filter"] }
diesel = { version = "=2.3.14", features = ["postgres", "r2d2", "chrono"] }
diesel_migrations = "=2.3.2"
redis = { version = "=0.27.6", features = ["tokio-comp", "connection-manager"] }
lettre = { version = "=0.11.23", default-features = false, features = ["smtp-transport", "builder", "rustls-tls"] }
actix-cors = "=0.7.2"
futures = "=0.3.34"
tokio = { version = "=1.54.1", features = ["sync", "macros", "rt-multi-thread"] }
tracing-appender = "0.2"
