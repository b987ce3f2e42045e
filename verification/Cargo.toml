[package]
name = "news_tui"
version = "0.1.0"
edition = "2021"
publish = false

[dependencies]
anyhow = "1"
chrono = "0.4"
crossterm = "*"
dirs = "*"
feed-rs = "2"
futures = "0.3"
ratatui = "*"
reqwest = { version = "0.12", default-features = false, features = ["rustls-tls"] }
rusqlite = { version = "*", features = ["bundled"] }
serde = { version = "1", features = ["derive"] }
thiserror = "*"
tokio = { version = "1", features = ["macros", "rt-multi-thread"] }
toml = "*"
