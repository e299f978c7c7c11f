[package]
name = "chat_core"
version = "0.1.0"
edition = "2021"
publish = false

[dependencies]
anyhow = "*"
base64 = "*"
crossterm = "*"
dirs = "*"
futures = "*"
governor = "*"
rand = "*"
ratatui = "*"
reqwest = { version = "*", default-features = false, features = ["json"] }
serde = { version = "*", features = ["derive"] }
serde_json = "*"
tokio = { version = "*", features = ["macros", "rt-multi-thread", "net", "time", "sync"] }
tokio-tungstenite = "*"
url = "*"
