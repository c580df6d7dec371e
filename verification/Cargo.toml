[package]
name = "proxy_detector"
version = "0.1.0"
edition = "2021"
publish = false

[dependencies]
serde_json = "=1.0.151"
chrono = "=0.4.45"
chrono-tz = "=0.10.4"
serde = { version = "=1.0.229", features = ["derive"] }
clap = { version = "=4.6.7", features = ["derive"] }
tokio = { version = "=1.53.2", features = ["rt-multi-thread", "macros", "time", "net"] }
tokio-tungstenite = "=0.30.0"
futures-util = "=0.3.34"
rand = "=0.8.8"
wreq = "=0.15.3"
wreq-util = "=0.1.0"
