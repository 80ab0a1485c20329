[package]
name = "maple_ingest"
version = "0.1.0"
edition = "2021"
publish = false

[dependencies]
axum = "0.8"
base64 = "0.22"
dotenvy = "0.15"
flate2 = "1"
hmac = "0.12"
libsql = { version = "*", default-features = false, features = ["core", "remote"] }
metrics = "*"
metrics-exporter-prometheus = { version = "*", default-features = false }
opentelemetry-proto = { version = "*", default-features = false, features = ["gen-tonic-messages", "trace", "logs", "metrics", "with-serde"] }
prost = "*"
reqwest = { version = "0.12", default-features = false, features = ["json", "rustls-tls"] }
serde = { version = "1", features = ["derive"] }
serde_json = "1"
sha2 = "0.10"
tikv-jemallocator = "*"
tokio = { version = "1", features = ["rt-multi-thread", "macros", "net", "sync", "time"] }
tower-http = { version = "*", features = ["cors"] }
tracing = "0.1"
tracing-subscriber = { version = "0.3", features = ["env-filter", "fmt"] }
url = "2"
uuid = { version = "1", features = ["v4"] }
