[package]
name = "querent_synapse"
version = "0.1.0"
edition = "2021"
publish = false

[dependencies]
anyhow = "1"
base64 = "0.21"
crossbeam-channel = "0.5"
directories = "5"
dunce = "1"
futures = "0.3"
log = "0.4"
once_cell = "1"
pyembed = "*"
pyo3 = "*"
pyo3-asyncio = { version = "*", features = ["tokio-runtime"] }
serde = { version = "1", features = ["derive"] }
serde_json = "1"
thiserror = "1"
tokio = { version = "1", features = ["full"] }
tracing = "0.1"
utoipa = "4"
zip = "0.6"
