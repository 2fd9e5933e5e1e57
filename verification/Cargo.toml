[package]
name = "gms"
version = "0.4.0"
edition = "2021"
publish = false

[dependencies]
bytes = "=1.12.1"
tokio = { version = "=1.54.1", features = ["full"] }
uuid = { version = "=1.29.0", features = ["v4"] }
xflv = "=0.2.1"
xmpegts = "=0.2.5"
anyhow = "=1.0.104"
clap = "=4.6.7"
toml = "=0.5.11"
serde = { version = "=1.0.229", features = ["derive"] }
serde_derive = "=1.0.229"
tracing = "=0.1.44"
tracing-subscriber = { version = "=0.3.23", features = ["env-filter"] }
tracing-log = "=0.1.4"
log = "=0.4.34"
failure = "=0.1.8"
