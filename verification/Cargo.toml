[package]
name = "rimap-server"
version = "0.1.0"
edition = "2021"
publish = false

[dependencies]
anyhow = "1"
arc-swap = "=1.9.3"
clap = { version = "=4.6.7", features = ["derive"] }
governor = "=0.10.4"
hex = "=0.4.3"
jsonschema = { version = "=0.60.2", default-features = false }
rmcp = { version = "=3.0.1", features = ["server", "transport-io", "schemars"] }
schemars = "1"
secrecy = "=0.10.3"
serde = { version = "=1.0.229", features = ["derive"] }
serde_json = "=1.0.154"
sha2 = "=0.11.1"
tempfile = "3"
tokio = { version = "=1.54.1", features = ["full"] }
tracing = "0.1"
