[package]
name = "load_balancer"
version = "0.1.0"
edition = "2021"
publish = false

[dependencies]
serde_json = "1"
rand = "0.8"
tokio = { version = "1", features = ["full"] }
hyper = { version = "1", features = ["full"] }
hyper-util = { version = "0.1", features = ["full"] }
http-body-util = "0.1"
bytes = "1"
axum = "0.8"
clap = { version = "4", features = ["derive"] }
crossterm = "0.28"
ratatui = "0.29"
log = "0.4"
simplelog = "0.12"
color-eyre = "0.6"
