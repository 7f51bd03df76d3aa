[package]
name = "cdk"
version = "0.1.0"
edition = "2021"
publish = false

[dependencies]
serde = { version = "1", features = ["derive"] }
serde_json = "1"
thiserror = "2"
tokio = { version = "1", features = ["time", "rt", "macros"] }
tracing = "0.1"
url = "2"
base64 = "0.22"
bitcoin = "0.32"
