[package]
name = "geomatch"
version = "0.1.0"
edition = "2021"
publish = false

[dependencies]
clap = "=2.34.0"
csv = "=1.4.0"
futures = "=0.3.34"
fuzzywuzzy = "=0.0.2"
indicatif = "0.17"
reqwest = { version = "=0.11.27", default-features = false, features = ["rustls-tls"] }
serde_json = "=1.0.154"
tokio = { version = "=1.54.1", features = ["full"] }
