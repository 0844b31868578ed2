[package]
name = "tuifs"
version = "0.1.0"
edition = "2021"
publish = false

[dependencies]
bytes = "*"
color-eyre = "*"
crossterm = "*"
futures = "*"
http-body-util = "*"
hyper = { version = "*", features = ["full"] }
hyper-util = { version = "*", features = ["full"] }
map-ok = "*"
ratatui = "*"
serde = "*"
serde_json = "*"
tokio = { version = "*", features = ["full"] }
tokio-util = { version = "*", features = ["io"] }
