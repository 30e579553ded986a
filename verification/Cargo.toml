[package]
name = "qa-lab-launcher"
version = "0.1.0"
edition = "2021"
publish = false

[dependencies]
chrono = "0.4"
dirs = "*"
futures-util = "0.3"
hex = "0.4"
keyring = "3"
open = "5"
reqwest = { version = "0.12", default-features = false, features = ["json", "stream", "rustls-tls"] }
serde = { version = "1", features = ["derive"] }
serde_json = "1"
sha2 = "0.10"
tokio = { version = "1", features = ["time", "fs", "io-util"] }
tracing-subscriber = "0.3"
url = "2"
zip = { version = "2", default-features = false, features = ["deflate"] }
