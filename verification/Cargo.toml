[package]
name = "controller"
version = "0.1.0"
edition = "2021"
publish = false

[dependencies]
anyhow = "*"
chrono = { version = "*", features = ["serde"] }
cloudflare = "=0.14.0"
futures = "*"
k8s-openapi = { version = "=0.27.1", features = ["latest", "schemars"] }
kube = { version = "=3.1.0", features = ["runtime", "client", "derive"] }
schemars = "*"
serde = { version = "*", features = ["derive"] }
serde_json = "*"
thiserror = "*"
tokio = { version = "*", features = ["macros", "rt-multi-thread", "sync", "time", "signal"] }
tracing = "*"
