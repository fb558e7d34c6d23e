[package]
name = "nu_dock"
version = "0.1.0"
edition = "2021"
publish = false

[dependencies]
anyhow = "=1.0.104"
bollard = "=0.11.1"
chrono = "=0.4.45"
indexmap = "=1.9.3"
nu-errors = "=0.34.0"
nu-plugin = "=0.34.0"
nu-protocol = "=0.34.0"
nu-source = "=0.34.0"
serde = { version = "=1.0.229", features = ["derive"] }
serde-nu = "=0.2.0"
tokio = { version = "=1.54.1", features = ["rt-multi-thread"] }
