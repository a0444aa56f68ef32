[package]
name = "glance_mind_agent"
version = "0.1.0"
edition = "2021"
publish = false

[dependencies]
serde_json = "=1.0.154"
chrono = { version = "=0.4.45", default-features = false, features = ["clock", "std"] }
redis = { version = "=1.8.1", default-features = false, features = ["tokio-comp", "connection-manager"] }
serde = { version = "=1.0.229", features = ["derive"] }
tokio = { version = "=1.54.1", features = ["rt-multi-thread", "macros", "time", "sync"] }
clap = { version = "=4.6.7", features = ["derive", "env"] }
thiserror = "=2.0.21"
anyhow = "=1.0.104"
dotenvy = "=0.15.7"
tracing = "=0.1.44"
tracing-subscriber = { version = "=0.3.23", features = ["env-filter"] }
rand = "0.8"
