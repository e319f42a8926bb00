[package]
name = "voice-test-tool"
version = "0.1.0"
edition = "2021"
publish = false

[dependencies]
chrono = "=0.4.45"
uuid = { version = "=1.29.0", features = ["v4"] }
url = "=2.5.8"
zip = { version = "=2.6.1", default-features = false, features = ["deflate"] }
serde = { version = "=1.0.229", features = ["derive"] }
serde_json = "=1.0.154"
serde_yaml = "=0.9.34"
toml = "=0.8.23"
hound = "=3.5.1"
symphonia = { version = "=0.5.5", features = ["mp3"] }
parking_lot = "=0.12.5"
crossbeam-channel = "=0.5.17"
tokio = { version = "=1.54.1", features = ["rt-multi-thread", "time", "macros", "sync"] }
directories = "=5.0.1"
anyhow = "=1.0.104"
thiserror = "=1.0.69"
reqwest = { version = "0.12", default-features = false, features = ["json", "rustls-tls"] }
openai-tools = "*"
