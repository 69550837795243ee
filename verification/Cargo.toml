[package]
name = "at_realtime"
version = "0.1.0"
edition = "2021"
publish = false

[dependencies]
anyhow = "=1.0.104"
urlencoding = "=2.1.3"
chrono = "=0.4.45"
chrono-tz = "=0.10.4"
jiff = { version = "=0.2.39", default-features = false, features = ["std", "tz-fat", "perf-inline", "tzdb-bundle-always"] }
serde = { version = "=1.0.229", features = ["derive"] }
serde_json = "=1.0.154"
serde_repr = "=0.1.21"
quick-xml = { version = "=0.42.0", features = ["serialize"] }
http = "=1.5.0"
http-body = "=1.1.0"
http-body-util = "=0.1.5"
bytes = "=1.12.1"
thiserror = "=2.0.21"
tracing = "=0.1.44"
uuid = { version = "=1.29.0", features = ["v4"] }
dashmap = "=6.2.1"
tokio = { version = "=1.54.1", features = ["sync", "rt", "macros"] }
async-trait = "=0.1.92"
axum = { version = "=0.8.9", default-features = false }
