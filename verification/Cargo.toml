[package]
name = "mcp-rust-docs"
version = "0.1.0"
edition = "2021"
publish = false

[dependencies]
anyhow = "=1.0.104"
axum = "=0.8.9"
clap = { version = "=4.6.7", features = ["derive", "env"] }
fast_html2md = "=0.0.63"
reqwest = { version = "=0.12.28", default-features = false, features = ["json", "rustls-tls"] }
rmcp = { version = "=3.8.0", features = ["server", "macros", "transport-io", "transport-streamable-http-server"] }
schemars = "=1.2.3"
serde = { version = "=1.0.229", features = ["derive"] }
serde_json = "=1.0.154"
thiserror = "=2.0.21"
tokio = { version = "=1.54.1", features = ["macros", "rt-multi-thread", "signal", "net", "io-std", "sync", "time"] }
tokio-util = "=0.7.20"
tower = "=0.5.3"
tracing = "=0.1.44"
tracing-subscriber = { version = "=0.3.23", features = ["env-filter"] }
vercel_runtime = { version = "=2.4.1", features = ["axum"] }
