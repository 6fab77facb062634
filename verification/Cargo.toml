[package]
name = "sentiric_sip_b2bua_service"
version = "0.1.0"
edition = "2021"
publish = false

[dependencies]
anyhow = "1"
dashmap = "6"
dotenvy = "0.15"
futures = "0.3"
hyper = { version = "0.14", features = ["server", "http1", "tcp"] }
lapin = "3"
prost = "0.13"
prost-types = "0.13"
redis = { version = "0.27", features = ["tokio-comp", "connection-manager"] }
serde = { version = "1", features = ["derive"] }
serde_json = "1"
tokio = { version = "1", features = ["full"] }
tonic = "0.12"
tracing = "0.1"
tracing-subscriber = { version = "0.3", features = ["env-filter", "fmt", "registry"] }
uuid = { version = "1", features = ["v4"] }
