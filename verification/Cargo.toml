[package]
name = "rss_feed"
version = "0.1.0"
edition = "2021"
publish = false

[dependencies]
chrono = "=0.4.45"
constcat = "=0.5.1"
quick-xml = "=0.36.2"
reqwest = { version = "=0.12.28", default-features = false, features = ["blocking", "rustls-tls"] }
rusqlite = { version = "=0.32.1", features = ["bundled"] }
