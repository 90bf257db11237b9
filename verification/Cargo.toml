[package]
name = "service_registry"
version = "0.1.0"
edition = "2021"
publish = false

[dependencies]
actix-web = "=4.15.0"
deadpool = "=0.13.1"
deadpool-redis = "=0.23.1"
rdkafka = "=0.39.0"
serde = { version = "=1.0.229", features = ["derive"] }
tokio = { version = "=1.53.2", features = ["sync", "macros", "rt-multi-thread"] }
tracing-subscriber = "=0.3.23"
