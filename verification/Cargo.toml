[package]
name = "yt_tui"
version = "0.1.0"
edition = "2021"
publish = false

[dependencies]
crossterm = "*"
dotenv = "*"
ratatui = "*"
reqwest = { version = "*", default-features = false, features = ["rustls-tls"] }
serde = { version = "*", features = ["derive"] }
serde_json = "*"
tokio = { version = "*", features = ["macros", "rt-multi-thread"] }
