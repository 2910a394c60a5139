[package]
name = "devin-mcp"
version = "0.1.0"
edition = "2021"
publish = false

[dependencies]
anyhow = "=1.0.104"
hyper = { version = "=1.12.0", features = ["http1", "client"] }
reqwest = { version = "=0.12.28", default-features = false, features = ["json", "rustls-tls"] }
rmcp = { version = "=3.8.0", features = ["server", "macros", "transport-io"] }
serde = { version = "=1.0.229", features = ["derive"] }
serde_json = "=1.0.154"
tokio = { version = "=1.54.1", features = ["macros", "rt-multi-thread", "io-std"] }
tracing = "=0.1.44"
tracing-subscriber = { version = "=0.3.23", features = ["env-filter"] }
