[package]
name = "macrdp"
version = "0.1.0"
edition = "2021"
publish = false

[dependencies]
ironrdp-pdu = "=0.6.0"
ironrdp-core = "0.1"
ironrdp-dvc = "=0.4.1"
serde = { version = "=1.0.229", features = ["derive"] }
serde_json = "=1.0.154"
toml = "=1.1.8"
clap = { version = "=4.6.7", features = ["derive"] }
dirs = "=7.0.0"
anyhow = "=1.0.104"
bytes = "=1.12.1"
tracing = "=0.1.44"
tracing-subscriber = { version = "=0.3.23", features = ["env-filter"] }
chrono = "=0.4.45"
tokio = { version = "=1.54.1", features = ["rt-multi-thread", "macros", "sync", "time"] }
async-trait = "=0.1.92"
rusqlite = { version = "=0.41.1", features = ["bundled"] }
core-graphics = "=0.25.0"
core-foundation = "=0.10.1"
core-foundation-sys = "=0.8.7"
foreign-types = "=0.5.0"
