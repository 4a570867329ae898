[package]
name = "soter"
version = "0.3.0"
edition = "2021"
publish = false

[dependencies]
sha2 = "=0.10.9"
tokio = { version = "=1.54.1", features = ["sync", "rt-multi-thread", "macros"] }
serde = { version = "=1.0.229", features = ["derive"] }
serde_json = "=1.0.154"
async-trait = "=0.1.92"
thiserror = "=2.0.21"
tonic = { version = "=0.14.9", features = ["tls-ring"] }
tonic-prost = "=0.14.9"
tonic-health = "=0.14.9"
tonic-reflection = "=0.14.9"
prost = "=0.14.4"
tracing = "=0.1.44"
tracing-subscriber = { version = "=0.3.23", features = ["env-filter", "json"] }
anyhow = "=1.0.104"
uuid = { version = "=1.29.0", features = ["v4"] }
