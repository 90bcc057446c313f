[package]
name = "pulumi_operator"
version = "0.1.0"
edition = "2021"
publish = false

[dependencies]
base64 = "0.21"
futures = "0.3"
git2 = { version = "0.18", default-features = false }
k8s-openapi = { version = "0.20", features = ["v1_28", "schemars"] }
kube = { version = "0.87", default-features = false, features = ["client", "derive", "runtime"] }
log = "0.4"
schemars = "0.8"
serde = { version = "1", features = ["derive"] }
serde_json = "1"
serde_yaml = "0.9"
thiserror = "1"
tokio = { version = "1", features = ["io-util", "macros", "process", "rt", "sync", "time"] }
tracing = "0.1"
