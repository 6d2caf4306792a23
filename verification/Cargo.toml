[package]
name = "countingsheep"
version = "0.1.0"
edition = "2021"
publish = false

[dependencies]
anyhow = "=1.0.104"
time = { version = "=0.3.55", features = ["parsing", "formatting"] }
serde = { version = "=1.0.229", features = ["derive"] }
serde_json = { version = "=1.0.154", features = ["preserve_order"] }
axum = "=0.8.9"
tokio = { version = "=1.54.1", features = ["full"] }
tower = { version = "=0.5.3", features = ["util"] }
tower-http = { version = "=0.6.11", features = ["trace", "catch-panic", "timeout", "compression-full"] }
tracing = "=0.1.44"
tracing-subscriber = { version = "=0.3.23", features = ["env-filter", "json", "fmt"] }
dotenvy = "=0.15.7"
posthog-rs = "=0.30.0"
rdkafka = "=0.39.0"
bon = "=3.10.3"
derive_more = { version = "=2.1.1", features = ["deref"] }
