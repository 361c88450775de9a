[package]
name = "engine"
version = "0.1.0"
edition = "2021"
publish = false

[dependencies]
rand = "=0.8.8"
anyhow = "=1.0.104"
axum = "=0.7.9"
axum-extra = { version = "=0.9.6", features = ["cookie"] }
deadpool = "=0.12.3"
deadpool-postgres = { version = "=0.14.2", features = ["serde"] }
futures = "=0.3.34"
pwhash = "=1.0.0"
redis = { version = "=0.27.6", features = ["tokio-comp", "json"] }
redis-macros = "=0.4.3"
regex = "=1.13.1"
sea-query = { version = "=0.32.7", features = ["attr", "with-json", "with-time", "thread-safe"] }
serde = { version = "=1.0.229", features = ["derive"] }
serde_derive = "=1.0.229"
serde_json = "=1.0.151"
thiserror = "=1.0.69"
time = { version = "=0.3.55", features = ["serde"] }
tokio = { version = "=1.53.2", features = ["full"] }
tokio-postgres = { version = "=0.7.18", features = ["with-serde_json-1", "with-time-0_3"] }
tower = { version = "=0.5.3", features = ["util"] }
uuid = { version = "=1.27.0", features = ["v4", "serde"] }
validator = { version = "=0.19.0", features = ["derive"] }
