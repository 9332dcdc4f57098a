[package]
name = "bkeeper"
version = "0.1.0"
edition = "2021"
publish = false

[dependencies]
chrono = "*"
serde_json = "*"
serde = "*"
serde_yaml = "*"
log = "*"
log4rs = "*"
clap = "*"
tokio = { version = "*", features = ["full"] }
reqwest = { version = "*", default-features = false, features = ["rustls-tls"] }
egg-mode = { version = "*", default-features = false, features = ["rustls"] }
plotly = "*"
