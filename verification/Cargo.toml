[package]
name = "privileged"
version = "0.1.0"
edition = "2021"
publish = false

[dependencies]
serde_json = "*"
k8s-openapi = { version = "*", features = ["latest"] }
