[package]
name = "project_tagger"
version = "0.1.0"
edition = "2021"
publish = false

[dependencies]
anyhow = "=1.0.104"
clap = { version = "=4.6.7", features = ["derive", "env"] }
reqwest = { version = "=0.11.27", default-features = false, features = ["json", "rustls-tls"] }
serde = { version = "=1.0.229", features = ["derive"] }
serde_json = "=1.0.154"
tokio = { version = "=1.54.1", features = ["macros", "rt-multi-thread", "time"] }
