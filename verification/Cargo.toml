[package]
name = "weebo-authentik"
version = "0.1.0"
edition = "2021"
publish = false

[dependencies]
async-trait = "=0.1.92"
authentik-client = "=2026.8.5"
axum = "=0.8.9"
futures = "=0.3.34"
k8s-openapi = { version = "=0.29.0", features = ["latest", "schemars"] }
kube = { version = "=5.0.0", features = ["runtime", "derive", "client", "rustls-tls", "admission"] }
reqwest = "=0.13.5"
reqwest-middleware = "=0.5.2"
schemars = "=1.2.3"
serde = { version = "=1.0.229", features = ["derive"] }
serde_json = "=1.0.154"
thiserror = "=2.0.21"
tokio = { version = "=1.54.1", features = ["sync", "macros", "rt-multi-thread", "time"] }
tracing = "=0.1.44"
uuid = { version = "=1.29.0", features = ["v4"] }
vaultrs = "=0.8.0"
