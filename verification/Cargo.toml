[package]
name = "unit_monitor"
version = "0.1.0"
edition = "2021"
publish = false

[dependencies]
anyhow = "=1.0.104"
clap = { version = "=4.6.7", features = ["derive"] }
derive_more = { version = "=2.1.1", features = ["display", "from_str"] }
futures = "=0.3.34"
tokio = { version = "=1.54.1", features = ["rt", "macros"] }
zbus = { version = "5", default-features = false, features = ["tokio"] }
