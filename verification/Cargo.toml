[package]
name = "pager_bridge"
version = "0.1.0"
edition = "2021"
publish = false

[dependencies]
anyhow = "=1.0.104"
clap = { version = "=3.2.25", features = ["derive"] }
env_logger = "=0.9.3"
futures-util = "=0.3.34"
json = "=0.12.4"
log = "=0.4.34"
paho-mqtt = { version = "=0.11.1", default-features = false }
regex = "=1.13.1"
serde = { version = "=1.0.229", features = ["derive"] }
tokio = { version = "=1.54.1", features = ["macros", "rt-multi-thread"] }
tokio-tungstenite = "=0.17.2"
toml = "=0.5.11"
url = { version = "=2.5.8", features = ["serde"] }

[dev-dependencies]
serde_json = "=1.0.154"
