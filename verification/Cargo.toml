[package]
name = "orbiton"
version = "0.1.0"
edition = "2021"
publish = false

[dependencies]
anyhow = "*"
clap = { version = "*", features = ["derive"] }
console = "*"
ctrlc = "*"
dialoguer = "*"
env_logger = "*"
futures-util = "*"
kstring = "=2.0.0"
liquid = "*"
log = "*"
notify = "*"
open = "*"
serde = { version = "*", features = ["derive"] }
serde_json = "*"
tiny_http = "*"
tokio = { version = "*", features = ["rt-multi-thread", "net", "sync", "time", "macros"] }
tokio-tungstenite = "*"
toml = "*"
walkdir = "*"
