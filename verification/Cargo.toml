[package]
name = "kube_context_picker"
version = "0.1.0"
edition = "2021"
publish = false

[dependencies]
crossterm = "=0.29.0"
k8s-openapi = { version = "=0.27.1", features = ["latest"] }
kube = { version = "=3.1.0", default-features = false, features = ["config"] }
ratatui = "=0.30.2"
serde_yaml = "=0.9.34"
