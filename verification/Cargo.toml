[package]
name = "snap_kube"
version = "0.1.0"
edition = "2021"
publish = false

[dependencies]
anyhow = "=1.0.104"
async-trait = "=0.1.92"
aws-config = { version = "=1.12.0", default-features = false, features = ["behavior-version-latest"] }
clap = { version = "=4.6.7", features = ["derive"] }
colored = "=3.1.1"
k8s-openapi = { version = "=0.24.0", features = ["v1_31"] }
kube = { version = "=0.99.0", features = ["derive"] }
schemars = "=0.8.22"
serde = { version = "=1.0.229", features = ["derive"] }
serde_json = "=1.0.151"
tokio = { version = "=1.53.2", features = ["macros", "rt-multi-thread", "time"] }
tracing = "=0.1.44"
tracing-subscriber = "=0.3.23"
