[package]
name = "openclaw-miniflux-mcp"
version = "0.1.0"
edition = "2021"
publish = false

[dependencies]
url = "=2.5.8"
miniflux_api = "=0.8.0"
reqwest = { version = "=0.13.5", features = ["json"] }
rmcp = { version = "=0.1.5", features = ["server", "transport-io", "macros"] }
clap = { version = "=4.6.7", features = ["derive", "env"] }
tokio = { version = "=1.54.1", features = ["full"] }
serde = { version = "1", features = ["derive"] }
serde_json = "=1.0.154"
schemars = "=0.8.22"
