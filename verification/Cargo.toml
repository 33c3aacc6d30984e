[package]
name = "acp_connector"
version = "0.1.0"
edition = "2021"
publish = false

[dependencies]
chrono = { version = "=0.4.45", features = ["serde"] }
uuid = { version = "=1.29.0", features = ["v4"] }
getrandom = "=0.4.3"
serde = { version = "=1.0.229", features = ["derive"] }
serde_json = "=1.0.154"
actix-web = { version = "=4.18.1", default-features = false, features = ["macros"] }
redis = { version = "=0.25.5", features = ["tokio-comp"] }
async-trait = "=0.1.92"
thiserror = "=1.0.69"
tracing = "=0.1.44"
tracing-subscriber = "=0.3.23"
dotenvy = "=0.15.7"
validator = { version = "=0.16.1", features = ["derive"] }
