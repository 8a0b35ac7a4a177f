[package]
name = "aquafin"
version = "0.1.0"
edition = "2021"
publish = false

[dependencies]
anyhow = "=1.0.104"
clap = { version = "=4.6.7", features = ["derive"] }
crossterm = "=0.29.0"
image = { version = "=0.25.10", default-features = false, features = ["jpeg", "png"] }
ratatui = { version = "=0.30.2", features = ["unstable-rendered-line-info"] }
ratatui-image = { version = "=11.1.0", default-features = false, features = ["crossterm"] }
serde = { version = "=1.0.229", features = ["derive"] }
serde_json = "=1.0.154"
thiserror = "=2.0.21"
tokio = { version = "=1.54.1", features = ["full"] }
tracing = "=0.1.44"
