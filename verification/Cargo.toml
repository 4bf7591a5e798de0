[package]
name = "dockersmith"
version = "0.1.0"
edition = "2021"
publish = false

[dependencies]
anyhow = "1"
bollard = { version = "0.19", features = ["ssh"] }
chrono = { version = "0.4", features = ["serde"] }
clap = { version = "4", features = ["derive"] }
crossterm = { version = "0.28", features = ["event-stream"] }
directories = "6"
futures-util = "0.3"
humansize = "2"
pulldown-cmark = { version = "0.12", default-features = false }
ratatui = "0.29"
reqwest = { version = "0.12", default-features = false, features = ["json", "rustls-tls"] }
serde = { version = "1", features = ["derive"] }
serde_json = "1"
tokio = { version = "1", features = ["full"] }
toml = "0.8"
