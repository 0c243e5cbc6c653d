[package]
name = "sentinel"
version = "0.1.0"
edition = "2021"
publish = false

[dependencies]
anyhow = "1"
chrono = "0.4"
serde = { version = "1", features = ["derive"] }
serde-xml-rs = "*"
thiserror = "*"
tokio = { version = "1", features = ["macros", "rt-multi-thread", "sync", "time"] }
