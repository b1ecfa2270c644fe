[package]
name = "kube_core"
version = "0.1.0"
edition = "2021"
publish = false

[dependencies]
serde = { version = "*", features = ["derive"] }
serde_json = "*"
k8s-openapi = { version = "*", features = ["latest"] }
