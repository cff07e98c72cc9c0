[package]
name = "anchoring"
version = "0.1.0"
edition = "2021"
publish = false

[dependencies]
url = "=2.5.8"
regex = "=1.13.1"
html2md = "=0.2.17"
uuid = { version = "=1.29.0", features = ["v4"] }
chrono = "=0.4.45"
serde = { version = "=1.0.229", features = ["derive"] }
serde_json = "=1.0.154"
tiktoken-rs = "=0.12.1"
text-splitter = { version = "=0.33.0", features = ["tiktoken-rs"] }
tokio = { version = "=1.54.1", features = ["rt-multi-thread", "macros", "time", "sync"] }
flume = "=0.11.1"
headless_chrome = "=0.9.0"
async-openai = { version = "=0.42.2", features = ["chat-completion", "embedding"] }
reqwest = { version = "=0.12.28", default-features = false, features = ["rustls-tls"] }
