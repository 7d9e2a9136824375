[package]
name = "weather_dashboard"
version = "0.1.0"
edition = "2021"
publish = false

[dependencies]
eframe = { version = "=0.29.1", default-features = false, features = ["default_fonts", "glow", "x11"] }
poll-promise = { version = "=0.3.0", features = ["tokio"] }
reqwest = { version = "=0.12.28", default-features = false, features = ["json", "rustls-tls"] }
serde = { version = "=1.0.229", features = ["derive"] }
serde_json = "=1.0.154"
tokio = { version = "=1.54.1", features = ["rt-multi-thread", "macros"] }
futures = "=0.3.34"
