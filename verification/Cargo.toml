[package]
name = "crabscore"
version = "0.1.0"
edition = "2021"
publish = false

[dependencies]
anyhow = "=1.0.104"
async-trait = "=0.1.92"
axum = "=0.6.20"
chrono = { version = "=0.4.45", features = ["serde"] }
clap = { version = "=4.6.7", features = ["derive"] }
colored = "=2.2.0"
serde = { version = "=1.0.229", features = ["derive"] }
serde_json = { version = "=1.0.154", features = ["raw_value"] }
syn = { version = "=2.0.119", features = ["full", "visit"] }
thiserror = "=1.0.69"
tokio = { version = "=1.54.1", features = ["macros", "process", "rt-multi-thread"] }
toml = "=0.8.23"
tower-http = { version = "=0.4.4", features = ["fs"] }
tracing = "=0.1.44"
tracing-subscriber = "=0.3.23"
walkdir = "=2.5.0"
