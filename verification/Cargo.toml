[package]
name = "http_client_metrics"
version = "0.1.0"
edition = "2021"
publish = false

[dependencies]
http = "1"
http-body = "1"
metrics = "0.24"
tower = { version = "0.5", default-features = false }
pin-project-lite = "0.2"
