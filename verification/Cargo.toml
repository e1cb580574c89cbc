[package]
name = "deepseek_cli"
version = "0.1.0"
edition = "2021"
publish = false

[dependencies]
sha1 = "=0.10.7"
rama-http = { version = "=0.2.0", default-features = false }
serde = { version = "=1.0.229", features = ["derive"] }
serde_json = "=1.0.154"
dirs = "=7.0.0"
anyhow = "=1.0.104"
tracing = "=0.1.44"

[dev-dependencies]
tempfile = "=3.27.0"
