[package]
name = "config_sync"
version = "0.1.0"
edition = "2021"
publish = false

[dependencies]
color-eyre = "0.6"
notify = "*"
serde = { version = "1", features = ["derive"] }
serde_json = "1"
tokio = { version = "1", features = ["macros", "rt-multi-thread", "sync"] }
