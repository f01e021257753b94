[package]
name = "stryke-k8s"
version = "0.2.1"
edition = "2021"
publish = false

[dependencies]
anyhow = "1"
clap = { version = "4", features = ["derive", "env"] }
either = "1"
futures-util = { version = "0.3", features = ["io"] }
http = "1"
k8s-openapi = { version = "0.24", features = ["v1_32"] }
kube = { version = "0.98", features = ["runtime", "ws"] }
once_cell = "1"
parking_lot = "0.12"
serde = { version = "1", features = ["derive"] }
serde_json = "1"
serde_yaml = "0.9"
tokio = { version = "1", features = ["rt-multi-thread", "macros", "time", "io-util"] }
